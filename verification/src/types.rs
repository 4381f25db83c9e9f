//! Types that the parts of the node hand to each other.

pub mod block;
pub mod sync_leap;
pub mod transaction;
