//! The conversion rule of command-line arguments.
//!
//! A raw span counts arguments: it starts at argument `start` and covers `len`
//! of them. The cooked text is the arguments joined by single spaces, and the
//! cooked span is the range of bytes that the covered arguments take in it.

use crate::error::SpanError;
use crate::layout::{
    extent_of, extents_grow, joined, offset_of, offsets_grow, run_lies_in_text, widths_of,
};
use crate::span::{Cooked, Raw, Span};
use core::marker::PhantomData;
use vstd::prelude::*;
use vstd::utf8::encode_utf8;

verus! {

/// The bytes of each token, as the cooked text holds them.
pub open spec fn token_bytes(tokens: Seq<String>) -> Seq<Seq<u8>> {
    Seq::new(tokens.len(), |k: int| encode_utf8(tokens[k]@))
}

/// The number of bytes that each token takes in the cooked text.
pub open spec fn token_widths(tokens: Seq<String>) -> Seq<nat> {
    widths_of(token_bytes(tokens))
}

/// What stands between two tokens in the cooked text: one space.
pub open spec fn space() -> Seq<u8> {
    seq![0x20u8]
}

/// The cooked text of a command line: its tokens joined by single spaces.
pub open spec fn cooked_text(tokens: Seq<String>) -> Seq<u8> {
    joined(token_bytes(tokens), space())
}

/// Whether the tokens that `span` counts all exist. A span that covers no
/// token still has to start at one.
pub open spec fn in_range(tokens: Seq<String>, span: Span<Raw>) -> bool {
    span.start < tokens.len() && span.start + span.len <= tokens.len()
}

/// The byte offset in the cooked text at which the first token of `span`
/// starts.
pub open spec fn cooked_start(tokens: Seq<String>, span: Span<Raw>) -> nat {
    offset_of(token_widths(tokens), 1, span.start as nat)
}

/// The number of bytes that the tokens of `span` take in the cooked text,
/// the spaces between them included.
pub open spec fn cooked_len(tokens: Seq<String>, span: Span<Raw>) -> nat {
    extent_of(token_widths(tokens), 1, span.start as nat, span.len as nat)
}

/// What a span of tokens becomes in the text of the tokens joined by single
/// spaces.
pub open spec fn cooked_tokens(tokens: Seq<String>, span: Span<Raw>) -> Result<
    Span<Cooked>,
    SpanError,
> {
    if !in_range(tokens, span) {
        Err(SpanError::OutOfRange)
    } else if cooked_start(tokens, span) + cooked_len(tokens, span) > usize::MAX {
        Err(SpanError::Overflow)
    } else {
        Ok(
            Span {
                start: cooked_start(tokens, span) as usize,
                len: cooked_len(tokens, span) as usize,
                tag: PhantomData,
            },
        )
    }
}

/// Converts a span that counts tokens into the byte range that those tokens
/// take in the text of `tokens` joined by single spaces.
pub fn cook_tokens(span: Span<Raw>, tokens: &[String]) -> (r: Result<Span<Cooked>, SpanError>)
    ensures
        r == cooked_tokens(tokens@, span),
{
    let count = tokens.len();
    if span.start >= count || span.len > count - span.start {
        return Err(SpanError::OutOfRange);
    }
    let ghost widths = token_widths(tokens@);
    let mut start: usize = 0;
    let mut k: usize = 0;
    while k < span.start
        invariant
            k <= span.start < count,
            span.start + span.len <= count,
            count == tokens@.len(),
            widths == token_widths(tokens@),
            start == offset_of(widths, 1, k as nat),
        decreases span.start - k,
    {
        let width = tokens[k].as_str().as_bytes().len();
        proof {
            assert(token_bytes(tokens@)[k as int].len() == width);
            assert(offset_of(widths, 1, (k + 1) as nat) == start + width + 1);
            offsets_grow(widths, 1, (k + 1) as nat, span.start as nat);
        }
        let after = match start.checked_add(width) {
            Some(sum) => sum.checked_add(1),
            None => None,
        };
        match after {
            Some(next) => {
                start = next;
            },
            None => {
                return Err(SpanError::Overflow);
            },
        }
        k += 1;
    }
    let mut len: usize = 0;
    let mut j: usize = 0;
    while j < span.len
        invariant
            j <= span.len,
            span.start + span.len <= count,
            count == tokens@.len(),
            widths == token_widths(tokens@),
            len == extent_of(widths, 1, span.start as nat, j as nat),
        decreases span.len - j,
    {
        let width = tokens[span.start + j].as_str().as_bytes().len();
        proof {
            assert(token_bytes(tokens@)[span.start + j].len() == width);
            assert(extent_of(widths, 1, span.start as nat, (j + 1) as nat) == if j == 0 {
                width as int
            } else {
                len + 1 + width
            });
            extents_grow(widths, 1, span.start as nat, (j + 1) as nat, span.len as nat);
        }
        let with_gap = if j == 0 {
            Some(len)
        } else {
            len.checked_add(1)
        };
        let after = match with_gap {
            Some(sum) => sum.checked_add(width),
            None => None,
        };
        match after {
            Some(next) => {
                len = next;
            },
            None => {
                return Err(SpanError::Overflow);
            },
        }
        j += 1;
    }
    if start.checked_add(len).is_none() {
        return Err(SpanError::Overflow);
    }
    Ok(Span::new(start, len))
}

/// The cooked span of a span of tokens lies within the cooked text, and the
/// bytes that it covers there are the covered tokens, joined by single
/// spaces. So a conversion overflows only where the cooked text itself is
/// longer than a `usize` can say.
pub proof fn cooked_span_holds_its_tokens(tokens: Seq<String>, span: Span<Raw>)
    requires
        in_range(tokens, span),
    ensures
        cooked_start(tokens, span) + cooked_len(tokens, span) <= cooked_text(tokens).len(),
        cooked_text(tokens).subrange(
            cooked_start(tokens, span) as int,
            (cooked_start(tokens, span) + cooked_len(tokens, span)) as int,
        ) == joined(
            token_bytes(tokens).subrange(span.start as int, span.start + span.len),
            space(),
        ),
{
    run_lies_in_text(token_bytes(tokens), space(), span.start as nat, span.len as nat);
}

} // verus!
