//! A fixed-width histogram: samples drawn from a half-open range `[start, end)`
//! are sorted into `n` equal-width buckets, and the bucket counts can be read back.
pub mod bins;
pub mod hist;
pub mod position;

pub use bins::{Bins, BuildError};
pub use hist::{Hist, SampleError};
pub use position::Position;
