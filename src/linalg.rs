//! Two-dimensional geometry over machine integers.

pub mod rect;
pub mod vec;
