use globcat::render::{aggregate, join_lines, process_file, render_block};
use globcat::summary::{buffer_stats, BufferStats};

fn strings(v: &[&str]) -> Vec<String> {
    v.iter().map(|s| s.to_string()).collect()
}

#[test]
fn block_for_hello_file() {
    assert_eq!(
        render_block("a.txt", "hello"),
        "[file name]: a.txt\n[file content begin]\nhello\n[file content end]\n"
    );
}

#[test]
fn process_file_decodes_bytes() {
    let r = process_file("a.txt", &Some(b"hello".to_vec()));
    assert_eq!(r, "[file name]: a.txt\n[file content begin]\nhello\n[file content end]\n");
}

#[test]
fn process_file_replaces_malformed_bytes() {
    let r = process_file("b.bin", &Some(vec![0x61, 0xff, 0x62]));
    assert_eq!(r, "[file name]: b.bin\n[file content begin]\na\u{FFFD}b\n[file content end]\n");
}

#[test]
fn process_file_unreadable_has_empty_content() {
    let r = process_file("gone.txt", &None);
    assert_eq!(r, "[file name]: gone.txt\n[file content begin]\n\n[file content end]\n");
}

#[test]
fn join_lines_separates_with_one_newline() {
    assert_eq!(join_lines(&strings(&["a", "b", "c"])), "a\nb\nc");
    assert_eq!(join_lines(&strings(&["only"])), "only");
    assert_eq!(join_lines(&Vec::new()), "");
}

#[test]
fn aggregate_keeps_selection_order_and_unreadable_blocks() {
    let names = strings(&["z.txt", "a.txt", "m.txt"]);
    let reads = vec![Some(b"zz".to_vec()), None, Some(b"mm".to_vec())];
    let buffer = aggregate(&names, &reads);
    let expected = [
        render_block("z.txt", "zz"),
        render_block("a.txt", ""),
        render_block("m.txt", "mm"),
    ]
    .join("\n");
    assert_eq!(buffer, expected);
    assert_eq!(buffer.matches("[file name]: ").count(), 3);
    assert_eq!(aggregate(&names, &reads), buffer);
}

#[test]
fn aggregate_of_nothing_is_empty() {
    assert_eq!(aggregate(&Vec::new(), &Vec::new()), "");
}

#[test]
fn stats_count_lines_words_chars() {
    let s = buffer_stats(2, "hello world\nfoo\n");
    assert_eq!(s, BufferStats { files: 2, lines: 2, words: 3, chars: 16 });
}

#[test]
fn stats_last_line_without_newline_and_unicode_space() {
    let s = buffer_stats(1, "a\u{3000}b\n\nc");
    assert_eq!(s, BufferStats { files: 1, lines: 3, words: 3, chars: 6 });
    let e = buffer_stats(0, "");
    assert_eq!(e, BufferStats { files: 0, lines: 0, words: 0, chars: 0 });
}
