//! Verified compute kernels for fixed-point decimals and calendar parts.
//!
//! Two engines live here: the decimal rescale / cast engine (`decimal`) and the
//! temporal part-extraction engine (`temporal`). Both work element-wise on
//! columns modelled as vectors of optional values, where `None` marks a null.

pub mod calendar;
pub mod decimal;
pub mod error;
pub mod i256;
pub mod native;
pub mod parse;
pub mod temporal;
