//! Descriptors of the front-ends that produce spans.

use crate::span::{Cooked, Raw};
use vstd::prelude::*;

verus! {

/// Describes one front-end. A format does nothing by itself: it is the key by
/// which a conversion rule is found, and it fixes what a span must look like
/// to be converted under it.
pub trait Format {
    /// The coordinate system of the spans that the front-end's parser makes.
    type SpanType;

    /// The shape of the input that a conversion under this format reads.
    type Input: ?Sized;
}

/// A front-end of raw spans whose numbering is taken to agree with byte
/// offsets. No rule of its own is registered for it, so its spans are
/// converted by the generic fallback, which is right only if that assumption
/// holds.
pub struct RawFormat<T>(pub T);

/// A front-end whose spans are cooked from the start.
pub struct CookedFormat<T>(pub T);

/// The arguments of a command line. A raw span counts arguments; the cooked
/// text is the arguments joined by single spaces.
pub struct CliFormat;

/// A JSON document as bytes. Its parser reports byte offsets, so its spans
/// are cooked from the start.
pub struct JsonFormat;

impl<T> Format for RawFormat<T> {
    type SpanType = Raw;

    type Input = T;
}

impl<T> Format for CookedFormat<T> {
    type SpanType = Cooked;

    type Input = T;
}

impl Format for CliFormat {
    type SpanType = Raw;

    type Input = [String];
}

impl Format for JsonFormat {
    type SpanType = Cooked;

    type Input = [u8];
}

} // verus!
