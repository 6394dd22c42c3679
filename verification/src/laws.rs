//! What the operations promise, stated on their arguments and on what comes
//! back.

pub mod arrays;
pub mod lifetimes;
pub mod names;
pub mod numbers;
pub mod operations;
pub mod refusals;
pub mod settings;
pub mod steps;
pub mod tensors;
