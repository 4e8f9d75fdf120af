//! Source spans that carry their coordinate system in their type.
//!
//! A front-end addresses its input in a scheme of its own (a raw coordinate
//! system, such as "the n-th argument"), while diagnostics are reported as byte
//! offsets into the normalized text of the input (the cooked coordinate
//! system). A [`Span`] records which of the two it lives in as a type
//! parameter, so that a raw span cannot be handed to code that expects a
//! cooked one, and [`process_span`] converts a raw span by the rule of the
//! front-end that made it.

pub mod cli;
pub mod convert;
pub mod dispatch;
pub mod error;
pub mod format;
pub mod layout;
pub mod render;
pub mod span;
pub mod spanned;

pub use crate::convert::{process_span, ToCooked};
pub use crate::dispatch::{convert_span, Dispatch};
pub use crate::error::SpanError;
pub use crate::format::{CliFormat, CookedFormat, Format, JsonFormat, RawFormat};
pub use crate::render::underline;
pub use crate::span::{Cooked, Pos, Raw, Span};
pub use crate::spanned::{Spannable, Spanned};
