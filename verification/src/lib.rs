//! Deterministic fixed-point arithmetic for control loops on hardware without
//! a floating-point unit, and a small set of composable digital filters built
//! on it.
//!
//! A fixed-point number is a mantissa tagged with a scale: a radix, a digit
//! count and an exponent. The number stands for `mantissa * radix^exponent`.
//! The digit count selects the native integer that stores the mantissa.
//!
//! - [`word`] describes the native integers and their wrapping and checked
//!   arithmetic; [`native`] ties the primitive types to it.
//! - [`radix`] resolves the storage of a mantissa and computes the powers of
//!   the radix; [`scale`] holds a scale and derives the scale of a sum, a
//!   product and a quotient.
//! - [`fixed`] is the value type with its conversions between scales;
//!   [`cast`] and [`cast_fixed`] convert from and to native integers, either
//!   wrapping or range-checked; [`operators`] and [`comparison`] give the
//!   arithmetic and the order.
//! - [`rescale`], [`exact`] and [`algebra`] state what holds of all of these:
//!   conversions compose, a number survives the way into a scale and back,
//!   and operands within their digit counts never overflow.
//! - [`traits`] defines the transducer, a step from input sample to output
//!   sample over explicit parameters and state, and its composition;
//!   [`filter`] and [`types`] hold the filters, delay lines, clamping and
//!   scaling.
//!
//! Every operation is a function of its arguments and of the state handed to
//! it; nothing is shared and nothing allocates after setup.

pub mod algebra;
pub mod aliases;
pub mod cast;
pub mod cast_fixed;
pub mod comparison;
pub mod error;
pub mod exact;
pub mod filter;
pub mod fixed;
pub mod native;
pub mod operators;
pub mod power;
pub mod radix;
pub mod rescale;
pub mod scale;
pub mod shift;
pub mod traits;
pub mod types;
pub mod word;
