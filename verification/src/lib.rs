//! Numbers that remember where they came from.
//!
//! A [`Num`] is a value that was entered, a value that was computed, or no
//! value at all.  Its payload is a 64-bit binary floating-point number, held
//! as the 64-bit word that encodes it (IEEE 754 binary64).  The library
//! decides everything that can be decided on tags, encodings and text: which
//! tag a result carries, which metric prefix a value is shown with, how many
//! decimals it gets, where a prefix or a ratio's colon stands in a text.  The
//! floating-point operations themselves (a quotient, a logarithm, the digits
//! of a value) are handed in by the caller as functions on encodings, and
//! every contract says exactly which of them is asked for what.
pub mod display;
pub mod encoding;
pub mod laws;
pub mod number;
pub mod parse;
pub mod prefix;
pub mod ratio;
mod text;

pub use number::Num;
pub use prefix::MetricPrefix;
