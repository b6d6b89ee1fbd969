//! Fee ratios of a swap pool: a record of eight numerator/denominator pairs,
//! checked fixed-point application of each ratio to 256-bit amounts, and the
//! record's fixed 128-byte little-endian storage layout.

pub mod bn;
pub mod codec;
pub mod fees;
