//! The line that a program prints: a label in square brackets, then a text.

use vstd::prelude::*;
use vstd::string::StringExecFns;

verus! {

/// The characters of a labelled line: `[`, the label, `] `, and the text.
pub open spec fn labelled_text(label: Seq<char>, text: Seq<char>) -> Seq<char> {
    "["@ + label + "] "@ + text
}

/// Puts `label` in square brackets in front of `text`, with one space
/// between them. Neither part is changed, and no line ending is added.
pub fn labelled_line(label: &str, text: &str) -> (line: String)
    ensures
        line@ == labelled_text(label@, text@),
{
    let mut line = String::from_str("[");
    line.append(label);
    line.append("] ");
    line.append(text);
    line
}

} // verus!
