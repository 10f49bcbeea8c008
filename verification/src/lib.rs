//! Derivation of percentage price changes from a quotes-API chart response.
//!
//! The library models the decoded wire payload of a one-year, weekly chart
//! query, validates its partially optional structure, and derives per-symbol
//! records of current price and daily, weekly, monthly and yearly percentage
//! changes.  Prices are carried as IEEE 754 binary64 bit patterns so that
//! every step of the derivation is verified; the floating-point operations
//! themselves are performed by a software IEEE 754 implementation behind
//! narrow trusted wrappers.

pub mod codec;
pub mod extract;
pub mod fp;
pub mod model;
pub mod render;
pub mod text;
pub mod url;
