//! Changes to a single field: the `Diff` contract and its two variants, one
//! that keeps the old and the new value and one that keeps their distance.

mod copy;
pub mod laws;
mod numeric_distance;
mod traits;

pub use copy::CopyDiff;
pub use numeric_distance::{Numeric, NumericDistanceDiff};
pub use traits::Diff;
