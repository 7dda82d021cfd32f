//! The lines that a run prints.

use vstd::prelude::*;
use vstd::string::*;

verus! {

/// The lines put one after the other, with `separator` between each two.
pub open spec fn joined(lines: Seq<Seq<char>>, separator: Seq<char>) -> Seq<char>
    decreases lines.len(),
{
    if lines.len() == 0 {
        Seq::empty()
    } else if lines.len() == 1 {
        lines[0]
    } else {
        joined(lines.drop_last(), separator) + separator + lines.last()
    }
}

/// The printed listing: a heading, then one key per line.
pub open spec fn listing_text(keys: Seq<Seq<char>>) -> Seq<char> {
    "List:\n"@ + joined(keys, "\n"@)
}

/// The line that reports a finished upload.
pub open spec fn upload_notice_text(path: Seq<char>) -> Seq<char> {
    "Uploaded file "@ + path
}

/// Lays out the keys of a bucket for printing: the heading `List:` and then
/// each key on a line of its own, in the order given.
pub fn format_listing(keys: &Vec<String>) -> (text: String)
    ensures
        text@ == listing_text(keys.deep_view()),
{
    let mut text = String::from_str("List:\n");
    let mut index: usize = 0;
    while index < keys.len()
        invariant
            index <= keys.len(),
            text@ == listing_text(keys.deep_view().take(index as int)),
        decreases keys.len() - index,
    {
        proof {
            let shown = keys.deep_view().take(index as int);
            let next = keys.deep_view().take(index + 1);
            assert(next.drop_last() =~= shown);
            assert(next.last() == keys[index as int]@);
            if index == 0 {
                assert("List:\n"@ + Seq::<char>::empty() + next.last() =~= listing_text(next));
            } else {
                assert("List:\n"@ + joined(shown, "\n"@) + "\n"@ + next.last() =~= listing_text(
                    next,
                ));
            }
        }
        if index > 0 {
            text.append("\n");
        }
        text.append(keys[index].as_str());
        index += 1;
    }
    assert(keys.deep_view().take(index as int) =~= keys.deep_view());
    text
}

/// Says that the file at `path` was uploaded.
pub fn upload_notice(path: &str) -> (text: String)
    ensures
        text@ == upload_notice_text(path@),
{
    let mut text = String::from_str("Uploaded file ");
    text.append(path);
    text
}

} // verus!
