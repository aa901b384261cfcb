//! Framing file contents in labelled blocks and joining them into one buffer.

use vstd::prelude::*;
use crate::patterns::views;
use vstd::string::StringExecFns;

verus! {

/// What `String::from_utf8_lossy` makes of a byte sequence.
pub uninterp spec fn utf8_lossy(b: Seq<u8>) -> Seq<char>;

/// Relies on `String::from_utf8_lossy`: malformed sequences become U+FFFD, and
/// no bytes give no characters.
#[verifier::external_body]
fn decode_lossy(b: &[u8]) -> (r: String)
    ensures
        r@ == utf8_lossy(b@),
        b@.len() == 0 ==> r@.len() == 0,
{
    String::from_utf8_lossy(b).into_owned()
}

/// The block for one file: an opening line naming it, its content, a closing line.
pub open spec fn block(name: Seq<char>, content: Seq<char>) -> Seq<char> {
    "[file name]: "@ + name + "\n[file content begin]\n"@ + content + "\n[file content end]\n"@
}

/// The text of a file that was read, or nothing for one that could not be.
pub open spec fn content_of(bytes: Option<Seq<u8>>) -> Seq<char> {
    match bytes {
        Some(b) => utf8_lossy(b),
        None => seq![],
    }
}

/// The bytes read for one file, `None` where reading failed.
pub open spec fn read_view(o: Option<Vec<u8>>) -> Option<Seq<u8>> {
    match o {
        Some(b) => Some(b@),
        None => None,
    }
}

/// The bytes read for each file, `None` where reading failed.
pub open spec fn reads_view(v: Seq<Option<Vec<u8>>>) -> Seq<Option<Seq<u8>>> {
    v.map_values(|o: Option<Vec<u8>>| read_view(o))
}

/// The blocks of the files, in the order given.
pub open spec fn blocks_of(names: Seq<Seq<char>>, reads: Seq<Option<Seq<u8>>>) -> Seq<Seq<char>> {
    Seq::new(names.len(), |k: int| block(names[k], content_of(reads[k])))
}

/// The texts joined with one newline between neighbours.
pub open spec fn joined(parts: Seq<Seq<char>>) -> Seq<char>
    decreases parts.len(),
{
    if parts.len() == 0 {
        seq![]
    } else if parts.len() == 1 {
        parts[0]
    } else {
        joined(parts.drop_last()) + seq!['\n'] + parts.last()
    }
}

/// The output buffer for files `names` whose reads gave `reads`.
pub open spec fn buffer_of(names: Seq<Seq<char>>, reads: Seq<Option<Seq<u8>>>) -> Seq<char> {
    joined(blocks_of(names, reads))
}

/// Frames `content` in the block for the file `name`.
pub fn render_block(name: &str, content: &str) -> (r: String)
    ensures
        r@ == block(name@, content@),
{
    let mut r = String::new();
    r.append("[file name]: ");
    r.append(name);
    r.append("\n[file content begin]\n");
    r.append(content);
    r.append("\n[file content end]\n");
    assert(r@ =~= block(name@, content@));
    r
}

/// Renders one file from what reading it gave; a failed read renders empty content.
pub fn process_file(name: &str, bytes: &Option<Vec<u8>>) -> (r: String)
    ensures
        r@ == block(name@, content_of(read_view(*bytes))),
{
    match bytes {
        Some(b) => {
            let text = decode_lossy(b.as_slice());
            render_block(name, text.as_str())
        },
        None => {
            proof {
                reveal_strlit("");
            }
            render_block(name, "")
        },
    }
}

/// Joins `parts` with one newline between neighbours.
pub fn join_lines(parts: &Vec<String>) -> (r: String)
    ensures
        r@ == joined(views(parts@)),
{
    let ghost ps = views(parts@);
    let mut r = String::new();
    let mut i: usize = 0;
    while i < parts.len()
        invariant
            i <= parts@.len(),
            ps == views(parts@),
            r@ == joined(ps.subrange(0, i as int)),
        decreases parts@.len() - i,
    {
        assert(ps.subrange(0, i + 1).drop_last() =~= ps.subrange(0, i as int));
        assert(ps[i as int] == parts@[i as int]@);
        if i > 0 {
            r.append("\n");
            proof {
                reveal_strlit("\n");
            }
        }
        r.append(parts[i].as_str());
        i = i + 1;
    }
    assert(ps.subrange(0, parts@.len() as int) =~= ps);
    r
}

/// Renders every selected file and joins the blocks, in selection order.
pub fn aggregate(names: &Vec<String>, reads: &Vec<Option<Vec<u8>>>) -> (r: String)
    requires
        names@.len() == reads@.len(),
    ensures
        r@ == buffer_of(views(names@), reads_view(reads@)),
{
    let ghost want = blocks_of(views(names@), reads_view(reads@));
    let mut blocks: Vec<String> = Vec::new();
    let mut i: usize = 0;
    while i < names.len()
        invariant
            i <= names@.len(),
            names@.len() == reads@.len(),
            want == blocks_of(views(names@), reads_view(reads@)),
            views(blocks@) == want.subrange(0, i as int),
        decreases names@.len() - i,
    {
        let b = process_file(names[i].as_str(), &reads[i]);
        assert(views(names@)[i as int] == names@[i as int]@);
        assert(reads_view(reads@)[i as int] == read_view(reads@[i as int]));
        let ghost prev = views(blocks@);
        assert(want[i as int] == b@);
        blocks.push(b);
        assert(views(blocks@) =~= prev.push(want[i as int]));
        assert(views(blocks@) =~= want.subrange(0, i + 1));
        i = i + 1;
    }
    assert(want.subrange(0, names@.len() as int) =~= want);
    join_lines(&blocks)
}

} // verus!
