use globcat::matcher::{build_glob_sets, PatternError};
use globcat::patterns::{normalize_pattern, plan_patterns};
use globcat::select::{select_entries, Entry};
use globcat::text::{trim, trim_leading};

fn strings(v: &[&str]) -> Vec<String> {
    v.iter().map(|s| s.to_string()).collect()
}

fn entry(path: &str, is_file: bool) -> Entry {
    Entry { path: path.to_string(), is_file }
}

fn selected(patterns: &[&str], entries: &[Entry]) -> Vec<String> {
    let m = match build_glob_sets(&strings(patterns)) {
        Ok(m) => m,
        Err(e) => panic!("patterns did not compile: {:?}", e),
    };
    select_entries(&m, &entries.to_vec())
}

#[test]
fn normalize_bare_name_gets_recursive_prefix() {
    assert_eq!(normalize_pattern("*.rs"), "**/*.rs");
    assert_eq!(normalize_pattern(""), "**/");
}

#[test]
fn normalize_anchored_pattern_unchanged() {
    assert_eq!(normalize_pattern("src/*.rs"), "src/*.rs");
}

#[test]
fn trim_strips_unicode_white_space() {
    assert_eq!(trim("\u{3000}\t a b \n\u{85}"), "a b");
    assert_eq!(trim("   "), "");
    assert_eq!(trim("x"), "x");
}

#[test]
fn trim_leading_strips_every_marker() {
    assert_eq!(trim_leading("!!x!", '!'), "x!");
    assert_eq!(trim_leading("!!", '!'), "");
}

#[test]
fn plan_empty_list_is_catch_all() {
    let plan = plan_patterns(&Vec::new());
    assert_eq!(plan.positive, strings(&["**"]));
    assert!(plan.negative.is_empty());
}

#[test]
fn plan_routes_trims_and_drops_empty_bodies() {
    let plan = plan_patterns(&strings(&["  *.md ", "!draft_*", "!", "!!x", "   ", "docs/a.md"]));
    assert_eq!(plan.positive, strings(&["**/*.md", "docs/a.md"]));
    assert_eq!(plan.negative, strings(&["**/draft_*", "**/x"]));
}

#[test]
fn plan_only_negative_patterns_seeds_catch_all() {
    let plan = plan_patterns(&strings(&["!*.log", "  "]));
    assert_eq!(plan.positive, strings(&["**"]));
    assert_eq!(plan.negative, strings(&["**/*.log"]));
}

#[test]
fn selection_markdown_without_drafts() {
    let entries = [entry("a.md", true), entry("draft_b.md", true), entry("c.txt", true)];
    assert_eq!(selected(&["*.md", "!draft_*"], &entries), strings(&["a.md"]));
}

#[test]
fn bare_name_matches_at_any_depth() {
    let entries = [entry("foo.txt", true), entry("a/foo.txt", true), entry("a/b/c/foo.txt", true), entry("a/bar.txt", true)];
    assert_eq!(selected(&["foo.txt"], &entries), strings(&["foo.txt", "a/foo.txt", "a/b/c/foo.txt"]));
}

#[test]
fn only_negative_patterns_keep_everything_else() {
    let entries = [entry("x/y.rs", true), entry("z.log", true), entry("deep/er/w.log", true), entry("r.txt", true)];
    assert_eq!(selected(&["!*.log"], &entries), strings(&["x/y.rs", "r.txt"]));
}

#[test]
fn negative_pattern_wins_over_positive() {
    let entries = [entry("a.md", true), entry("b.md", true), entry("sub/a.md", true)];
    assert_eq!(selected(&["*.md", "!a.md"], &entries), strings(&["b.md"]));
}

#[test]
fn no_patterns_select_every_regular_file_in_walk_order() {
    let entries = [entry("src", false), entry("src/main.rs", true), entry("README", true), entry("docs", false)];
    assert_eq!(selected(&[], &entries), strings(&["src/main.rs", "README"]));
}

#[test]
fn anchored_pattern_matches_from_root() {
    let entries = [entry("src/a.rs", true), entry("lib/src/b.rs", true)];
    assert_eq!(selected(&["src/*.rs"], &entries), strings(&["src/a.rs"]));
}

#[test]
fn invalid_glob_is_named() {
    match build_glob_sets(&strings(&["ok.md", "a[b"])) {
        Err(e) => assert_eq!(e, PatternError::InvalidGlob("**/a[b".to_string())),
        Ok(_) => panic!("an unclosed class must not compile"),
    }
}

#[test]
fn unresolved_variable_is_named() {
    match build_glob_sets(&strings(&["$GLOBCAT_TEST_SURELY_UNSET_VARIABLE/*.rs"])) {
        Err(e) => assert_eq!(
            e,
            PatternError::Expansion("$GLOBCAT_TEST_SURELY_UNSET_VARIABLE/*.rs".to_string())
        ),
        Ok(_) => panic!("an unset variable must not expand"),
    }
}

#[test]
fn matcher_reports_directories_unselected() {
    let m = match build_glob_sets(&Vec::new()) {
        Ok(m) => m,
        Err(e) => panic!("{:?}", e),
    };
    assert!(m.is_selected("any/path.bin", true));
    assert!(!m.is_selected("any", false));
}

#[test]
fn tilde_is_expanded_before_compiling() {
    let m = match build_glob_sets(&strings(&["~/notes/*.txt"])) {
        Ok(m) => m,
        Err(e) => panic!("{:?}", e),
    };
    assert!(!m.is_selected("~/notes/a.txt", true));
}

#[test]
fn blank_patterns_and_bare_marker_leave_catch_all() {
    let entries = [entry("a.md", true), entry("x/y.rs", true), entry("tmp", true), entry("d/tmp", true)];
    assert_eq!(selected(&["", "   ", "!", "!tmp"], &entries), strings(&["a.md", "x/y.rs"]));
}

#[test]
fn same_pattern_positive_and_negative_selects_nothing() {
    let entries = [entry("a.md", true), entry("d/b.md", true), entry("c.txt", true)];
    assert_eq!(selected(&["*.md", "!*.md"], &entries), Vec::<String>::new());
}
