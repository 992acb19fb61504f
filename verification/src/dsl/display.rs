//! The text of a check as it is shown to people. Colours and the terminal are
//! the caller's business; what is laid out here is plain text.

use crate::text::{replace_all, replaced};
use vstd::prelude::*;

verus! {

/// `count` blanks.
pub open spec fn blanks(count: nat) -> Seq<char>
    decreases count,
{
    if count == 0 {
        Seq::empty()
    } else {
        blanks((count - 1) as nat) + " "@
    }
}

/// The blanks that fill a header of `width` bytes up to twelve.
pub open spec fn header_padding(width: nat) -> nat {
    if width >= 12 {
        0
    } else {
        (12 - width) as nat
    }
}

/// A header: the head between two blanks on either side, filled up with
/// blanks so that heads of up to twelve bytes give headers of equal width.
pub open spec fn header_text(head: Seq<char>, width: nat) -> Seq<char> {
    "  "@ + head + "  "@ + blanks(header_padding(width))
}

/// Lays out the header of a line. The width of a head is its length in bytes.
pub fn check_header(head: &str) -> (header: String)
    ensures
        header@ == header_text(head@, head.len() as nat),
{
    let width = head.len();
    let padding: usize = if width >= 12 {
        0
    } else {
        12 - width
    };
    let mut header = "  ".to_owned();
    header.append(head);
    header.append("  ");
    let mut count: usize = 0;
    while count < padding
        invariant
            count <= padding,
            padding == header_padding(head.len() as nat),
            header@ == "  "@ + head@ + "  "@ + blanks(count as nat),
        decreases padding - count,
    {
        header.append(" ");
        count += 1;
        assert(header@ =~= "  "@ + head@ + "  "@ + blanks(count as nat));
    }
    header
}

/// A text of several lines with every line but the first moved in by two
/// blanks.
pub fn indented(text: &str) -> (result: String)
    ensures
        result@ == replaced(text@, "\n"@, "\n  "@),
{
    replace_all(text, "\n", "\n  ")
}

} // verus!
