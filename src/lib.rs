//! Reconciles the open/closed state of issues with the column their item
//! occupies on a project board.
pub mod args;
pub mod error;
pub mod raw_response;
pub mod response;
pub mod resolver;
pub mod classifier;
pub mod laws;
pub mod driver;
