//! Marking a cooked span under a line of text.

use crate::span::{Cooked, Span};
use vstd::prelude::*;
use vstd::string::StringExecFns;

verus! {

/// Whether byte `i` of the text lies in `span`.
pub open spec fn covers(span: Span<Cooked>, i: int) -> bool {
    span.start <= i < span.start + span.len
}

/// The line of marks for a text of `width` bytes: a caret under each byte of
/// `span`, a space under every other byte.
pub open spec fn marks(width: nat, span: Span<Cooked>) -> Seq<char> {
    Seq::new(
        width,
        |i: int|
            if covers(span, i) {
                '^'
            } else {
                ' '
            },
    )
}

/// The line to print under a text of `width` bytes to point at `span`. The
/// part of the span that lies beyond the text leaves no mark.
pub fn underline(width: usize, span: &Span<Cooked>) -> (line: String)
    ensures
        line@ == marks(width as nat, *span),
{
    let mut line = String::new();
    let mut i: usize = 0;
    while i < width
        invariant
            i <= width,
            line@ == marks(i as nat, *span),
        decreases width - i,
    {
        proof {
            reveal_strlit("^");
            reveal_strlit(" ");
        }
        if i >= span.start && i - span.start < span.len {
            line.append("^");
        } else {
            line.append(" ");
        }
        i += 1;
    }
    line
}

} // verus!
