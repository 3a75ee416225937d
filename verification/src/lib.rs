//! Dimensional analysis over the base dimensions length, mass and time.
//!
//! A [`Unit`] is a dimension descriptor: a vector of signed exponents, one
//! per base dimension. Multiplying two physical quantities adds their
//! descriptors, dividing subtracts them, and dividing a bare number by a
//! quantity negates the divisor's descriptor; quantities can be added,
//! subtracted and compared only when their descriptors are equal.
//!
//! The descriptor algebra is stated over [`Exponents`], the vectors of
//! mathematical integers, and every executable operation is proved to
//! compute exactly what that model says.
pub mod dimension;
pub mod exponents;
pub mod render;
pub mod unit;

pub use dimension::Dimension;
pub use exponents::Exponents;
pub use unit::Unit;
