//! Mergeable partial-aggregate states for a streaming group-by.
pub mod value;
pub mod view;
pub mod aggregates;
pub mod interface;
pub mod laws;
