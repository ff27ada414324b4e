//! Checked floating-point arithmetic: division, natural logarithm and square
//! root that report domain errors as values instead of panicking.
//!
//! Numbers are carried as IEEE 754 binary64 bit patterns (see [`fp::Fp`]), so
//! that the domain checks and the propagation of errors are verified, while
//! the arithmetic itself is delegated to the platform's floating-point
//! operations.

pub mod checked;
pub mod fp;
