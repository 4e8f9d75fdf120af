//! Conversion by the coordinate tag alone.
//!
//! Two rules need nothing but the tag of a span: a cooked span is its own
//! conversion, and a raw span with no rule of its own keeps its numbers. Which
//! of the two applies is settled by the type of the span, when the call is
//! compiled: the span is wrapped in [`Spez`], and each tag has its own impl
//! of [`Dispatch`] for the wrapper.

use crate::span::{Cooked, Raw, Span};
use facet_core::spez::Spez;
use vstd::prelude::*;

verus! {

/// Makes `facet_core::spez::Spez` known to the verifier. It is a tuple struct
/// with one public field, the wrapped value, which the verifier reads from the
/// crate itself: nothing is claimed of it here.
#[verifier::external_type_specification]
#[verifier::reject_recursive_types(T)]
pub struct ExSpez<T>(Spez<T>);

/// A rule that converts a wrapped span by its tag alone.
pub trait Dispatch {
    /// What the rule makes of the wrapped span.
    spec fn spec_run(self) -> Span<Cooked>;

    /// Applies the rule.
    fn run(self) -> (s: Span<Cooked>)
        ensures
            s == self.spec_run(),
    ;
}

/// A cooked span is already what a conversion would give.
impl Dispatch for &Spez<Span<Cooked>> {
    open spec fn spec_run(self) -> Span<Cooked> {
        self.0
    }

    fn run(self) -> (s: Span<Cooked>) {
        self.0
    }
}

/// The generic fallback: a raw span keeps its numbers, which is right only
/// where the raw numbering agrees with byte offsets.
impl Dispatch for &Spez<Span<Raw>> {
    open spec fn spec_run(self) -> Span<Cooked> {
        self.0.retagged::<Cooked>()
    }

    fn run(self) -> (s: Span<Cooked>) {
        self.0.as_type::<Cooked>()
    }
}

/// Converts `span` by the rule of its tag.
pub fn convert_span<C>(span: Span<C>) -> (s: Span<Cooked>) where
    for<'a> &'a Spez<Span<C>>: Dispatch,
    ensures
        s == (&Spez(span)).spec_run(),
{
    (&Spez(span)).run()
}

} // verus!
