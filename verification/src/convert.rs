//! Conversion of a format's spans to cooked coordinates.
//!
//! A conversion rule is an impl of [`ToCooked`] for the spans of one tag under
//! one format. The impls are the registry, and the types of the call pick the
//! one rule that applies:
//!
//! - a rule written for the format, as [`CliFormat`] has one;
//! - for a cooked span, under every format, the span itself;
//! - for a format that registers no rule of its own, [`RawFormat`], the same
//!   numbers under the cooked tag.
//!
//! No two impls cover the same pair of tag and format, so a call that compiles
//! has exactly one rule, and a raw span of a format without any rule does not
//! compile at all.

use crate::cli::{cook_tokens, cooked_start, cooked_tokens, in_range, token_widths};
use crate::dispatch::convert_span;
use crate::error::SpanError;
use crate::format::{CliFormat, Format, RawFormat};
use crate::layout::{bytes_lie_at_their_index, extent_of, offset_of, offset_passes_index};
use crate::span::{Cooked, Raw, Span};
use vstd::prelude::*;

verus! {

/// The conversion rule for spans of one tag under the format `F`.
pub trait ToCooked<F: Format>: Sized {
    /// What the rule makes of the span, given the input it was read from.
    spec fn spec_to_cooked(self, input: &F::Input) -> Result<Span<Cooked>, SpanError>;

    /// Applies the rule.
    fn to_cooked(self, format: &F, input: &F::Input) -> (r: Result<Span<Cooked>, SpanError>)
        ensures
            r == self.spec_to_cooked(input),
    ;
}

/// A cooked span converts to itself, whatever the format and the input.
impl<F: Format> ToCooked<F> for Span<Cooked> {
    open spec fn spec_to_cooked(self, input: &F::Input) -> Result<Span<Cooked>, SpanError> {
        Ok(self)
    }

    fn to_cooked(self, _format: &F, _input: &F::Input) -> (r: Result<Span<Cooked>, SpanError>) {
        Ok(convert_span(self))
    }
}

/// The generic fallback: the numbers of the raw span, unchanged.
impl<T> ToCooked<RawFormat<T>> for Span<Raw> {
    open spec fn spec_to_cooked(self, input: &T) -> Result<Span<Cooked>, SpanError> {
        Ok(self.retagged::<Cooked>())
    }

    fn to_cooked(self, _format: &RawFormat<T>, _input: &T) -> (r: Result<Span<Cooked>, SpanError>) {
        Ok(convert_span(self))
    }
}

/// The rule of command-line arguments: a span of arguments becomes the bytes
/// that they take in the arguments joined by single spaces.
impl ToCooked<CliFormat> for Span<Raw> {
    open spec fn spec_to_cooked(self, input: &[String]) -> Result<Span<Cooked>, SpanError> {
        cooked_tokens(input@, self)
    }

    fn to_cooked(self, _format: &CliFormat, input: &[String]) -> (r: Result<
        Span<Cooked>,
        SpanError,
    >) {
        cook_tokens(self, input)
    }
}

/// Converts a span that `format`'s parser made into cooked coordinates, by
/// the one rule registered for the span's tag under `format`.
pub fn process_span<F: Format>(format: &F, span: Span<F::SpanType>, input: &F::Input) -> (r: Result<
    Span<Cooked>,
    SpanError,
>) where Span<F::SpanType>: ToCooked<F>
    ensures
        r == span.spec_to_cooked(input),
{
    span.to_cooked(format, input)
}

/// Cooking a cooked span changes nothing: under every format and for every
/// input, the conversion of a cooked span succeeds and gives that span.
pub proof fn cooking_is_idempotent<F: Format>(span: Span<Cooked>, input: &F::Input)
    ensures
        <Span<Cooked> as ToCooked<F>>::spec_to_cooked(span, input) == Ok::<Span<Cooked>, SpanError>(
            span,
        ),
{
}

/// A span of command-line arguments is rejected as out of range exactly when
/// it names an argument that does not exist, and then no span comes back.
pub proof fn out_of_range_is_rejected(span: Span<Raw>, tokens: &[String])
    ensures
        !in_range(tokens@, span) <==> <Span<Raw> as ToCooked<CliFormat>>::spec_to_cooked(
            span,
            tokens,
        ) == Err::<Span<Cooked>, SpanError>(SpanError::OutOfRange),
{
}

/// A raw span that covers nothing converts to a cooked span that covers
/// nothing: under the rule of command-line arguments it lies at the offset of
/// the argument it points at, under the fallback at its own position.
pub proof fn empty_stays_empty<T>(span: Span<Raw>, tokens: &[String], input: &T)
    requires
        span.len == 0,
    ensures
        <Span<Raw> as ToCooked<CliFormat>>::spec_to_cooked(span, tokens) matches Ok(cooked)
            ==> cooked.len == 0 && cooked.start == cooked_start(tokens@, span),
        <Span<Raw> as ToCooked<RawFormat<T>>>::spec_to_cooked(span, input) matches Ok(cooked)
            && cooked.len == 0 && cooked.start == span.start,
{
}

/// Where a front-end numbers its input by bytes, the fallback is right: the
/// rule worked out by hand for units of one byte with nothing between them
/// gives, for every span within the input, the numbers that the fallback
/// gives.
pub proof fn fallback_agrees_on_bytes<T>(span: Span<Raw>, input: &T, widths: Seq<nat>)
    requires
        forall|k: int| 0 <= k < widths.len() ==> widths[k] == 1,
        span.start + span.len <= widths.len(),
    ensures
        <Span<Raw> as ToCooked<RawFormat<T>>>::spec_to_cooked(span, input) matches Ok(cooked)
            && cooked.start == offset_of(widths, 0, span.start as nat) && cooked.len == extent_of(
            widths,
            0,
            span.start as nat,
            span.len as nat,
        ),
{
    bytes_lie_at_their_index(widths, span.start as nat, span.len as nat);
}

/// Where a front-end numbers its input by arguments, the fallback is wrong:
/// as soon as an argument that is not empty stands before the span, the span
/// starts later in the cooked text than its raw number says, and the rule of
/// command-line arguments and the fallback give different spans.
pub proof fn fallback_misplaces_arguments<T>(
    span: Span<Raw>,
    tokens: &[String],
    input: &T,
    before: int,
)
    requires
        0 <= before < span.start,
        token_widths(tokens@)[before] > 0,
    ensures
        <Span<Raw> as ToCooked<CliFormat>>::spec_to_cooked(span, tokens) matches Ok(cooked)
            ==> cooked.start > span.start && <Span<Raw> as ToCooked<CliFormat>>::spec_to_cooked(
            span,
            tokens,
        ) != <Span<Raw> as ToCooked<RawFormat<T>>>::spec_to_cooked(span, input),
{
    offset_passes_index(token_widths(tokens@), 1, span.start as nat, before as nat);
}

} // verus!
