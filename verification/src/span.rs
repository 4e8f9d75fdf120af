//! The span value and its coordinate tags.

use core::convert::Infallible;
use core::marker::PhantomData;
use vstd::prelude::*;
use vstd::std_specs::cmp::PartialEqSpec;

verus! {

/// Tag of a format's own coordinate system. It has no values.
#[derive(Debug)]
pub enum Raw {
    /// Never built: the type it holds has no values.
    Never(Infallible),
}

/// Tag of the one canonical coordinate system: byte offsets into the
/// normalized text of the input. It has no values.
#[derive(Debug)]
pub enum Cooked {
    /// Never built: the type it holds has no values.
    Never(Infallible),
}

/// A position in the input: a byte index where the span is cooked.
pub type Pos = usize;

/// A range of the input, given by where it starts and how long it is, in the
/// coordinate system `C`.
#[derive(Debug)]
pub struct Span<C = Cooked> {
    /// Where the span starts.
    pub start: Pos,
    /// How many units the span covers; zero marks an insertion point.
    pub len: usize,
    /// The coordinate system; it holds no data.
    pub tag: PhantomData<C>,
}

impl<C> Span<C> {
    /// The position one past the last unit of the span, as a mathematical
    /// integer: it may lie beyond what `usize` holds.
    pub open spec fn spec_end(self) -> int {
        self.start + self.len
    }

    /// The same numbers under the tag `D`.
    pub open spec fn retagged<D>(self) -> Span<D> {
        Span { start: self.start, len: self.len, tag: PhantomData }
    }

    /// A span that starts at `start` and covers `len` units. Every pair of
    /// numbers is accepted.
    pub fn new(start: Pos, len: usize) -> (s: Self)
        ensures
            s == (Span::<C> { start, len, tag: PhantomData }),
    {
        Span { start, len, tag: PhantomData }
    }

    /// Where the span starts.
    pub fn start(&self) -> (p: Pos)
        ensures
            p == self.start,
    {
        self.start
    }

    /// How many units the span covers.
    pub fn len(&self) -> (n: usize)
        ensures
            n == self.len,
    {
        self.len
    }

    /// Whether the span covers nothing.
    pub fn is_empty(&self) -> (b: bool)
        ensures
            b == (self.len == 0),
    {
        self.len == 0
    }

    /// The position one past the last unit of the span. The sum has to fit in
    /// a `usize`.
    pub fn end(&self) -> (p: Pos)
        requires
            self.spec_end() <= usize::MAX,
        ensures
            p == self.spec_end(),
    {
        self.start + self.len
    }

    /// The same numbers under another tag. No arithmetic is done, so the
    /// result is right only where the two coordinate systems number the input
    /// alike. This is the building block of the conversion rules; code that
    /// holds a raw span and needs a cooked one goes through
    /// [`process_span`](crate::convert::process_span).
    pub fn as_type<D>(self) -> (s: Span<D>)
        ensures
            s == self.retagged::<D>(),
    {
        Span { start: self.start, len: self.len, tag: PhantomData }
    }
}

impl<C> Clone for Span<C> {
    fn clone(&self) -> (s: Self)
        ensures
            s == *self,
    {
        *self
    }
}

impl<C> Copy for Span<C> {}

impl<C> PartialEq for Span<C> {
    fn eq(&self, other: &Self) -> (b: bool) {
        self.start == other.start && self.len == other.len
    }
}

impl<C> Eq for Span<C> {}

impl<C> vstd::std_specs::cmp::PartialEqSpecImpl for Span<C> {
    open spec fn obeys_eq_spec() -> bool {
        true
    }

    open spec fn eq_spec(&self, other: &Self) -> bool {
        self.start == other.start && self.len == other.len
    }
}

/// Where two spans of one coordinate system hold the same numbers, they are
/// the same span: the tag adds nothing to tell them apart.
pub proof fn span_equality_is_by_numbers<C>(a: Span<C>, b: Span<C>)
    ensures
        a.eq_spec(&b) <==> a == b,
{
}

} // verus!
