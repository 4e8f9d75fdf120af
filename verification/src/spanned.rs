//! A value together with the span it was read from.

use crate::span::{Cooked, Span};
use vstd::prelude::*;
use vstd::std_specs::cmp::PartialEqSpec;

verus! {

/// A value annotated with the span, in the coordinate system `C`, that it was
/// read from.
#[derive(Debug)]
pub struct Spanned<T, C = Cooked> {
    /// The value.
    pub node: T,
    /// Where the value stands in the input.
    pub span: Span<C>,
}

/// Values that can be annotated with a span. Every type is one.
pub trait Spannable<C = Cooked>: Sized {
    /// The value together with `span`.
    fn with_span(self, span: Span<C>) -> (s: Spanned<Self, C>)
        ensures
            s.node == self,
            s.span == span,
    ;
}

impl<T, C> Spannable<C> for T {
    fn with_span(self, span: Span<C>) -> (s: Spanned<Self, C>) {
        Spanned { node: self, span }
    }
}

impl<T, C> Spanned<T, C> {
    /// Replaces the value by what `f` makes of it; the span stays.
    pub fn map<U>(self, f: impl FnOnce(T) -> U) -> (s: Spanned<U, C>)
        requires
            call_requires(f, (self.node,)),
        ensures
            call_ensures(f, (self.node,), s.node),
            s.span == self.span,
    {
        Spanned::<U, C> { node: f(self.node), span: self.span }
    }

    /// Replaces the span by what `f` makes of it; the value stays. This is how
    /// an annotated value is carried through a conversion.
    pub fn map_span<D>(self, f: impl FnOnce(Span<C>) -> Span<D>) -> (s: Spanned<T, D>)
        requires
            call_requires(f, (self.span,)),
        ensures
            s.node == self.node,
            call_ensures(f, (self.span,), s.span),
    {
        Spanned::<T, D> { node: self.node, span: f(self.span) }
    }
}

impl<T: Clone, C> Clone for Spanned<T, C> {
    fn clone(&self) -> (s: Self)
        ensures
            cloned::<T>(self.node, s.node),
            s.span == self.span,
    {
        Spanned { node: self.node.clone(), span: self.span }
    }
}

impl<T: PartialEq, C> PartialEq for Spanned<T, C> {
    fn eq(&self, other: &Self) -> (b: bool) {
        self.node == other.node && self.span == other.span
    }
}

impl<T: Eq, C> Eq for Spanned<T, C> {}

impl<T: PartialEq, C> vstd::std_specs::cmp::PartialEqSpecImpl for Spanned<T, C> {
    open spec fn obeys_eq_spec() -> bool {
        T::obeys_eq_spec()
    }

    open spec fn eq_spec(&self, other: &Self) -> bool {
        self.node.eq_spec(&other.node) && self.span == other.span
    }
}

} // verus!
