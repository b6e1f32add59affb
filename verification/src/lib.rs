//! A 128-bit unsigned integer with a compact, self-delimiting byte encoding.
//!
//! The encoding stores the value in groups of seven bits, least significant
//! group first, one group per byte. Every byte but the last has its high bit
//! set, so a reader knows where an encoding ends without a length prefix.
//! Small values take one or two bytes; the largest take nineteen.
//!
//! - [`format`] states the wire format over sequences of bytes.
//! - [`uint`] holds [`Uint`] with its encoder, decoder and length scan.
//! - [`stream`] decides, byte by byte, how to read a value from a source.
//! - [`laws`] proves what holds of the format as a whole.
//! - [`convert`], [`ops`] and [`reduce`] let a `Uint` stand where an
//!   integer stands: conversions, operators, sums and products.
mod bits;
mod casts;
pub mod convert;
pub mod format;
pub mod laws;
pub mod ops;
pub mod reduce;
pub mod stream;
pub mod uint;

pub use uint::Uint;
