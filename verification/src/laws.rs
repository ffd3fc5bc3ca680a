//! What the operations of the library do, stated over their inputs and results.
//!
//! Each law takes the inputs of an operation and a result that the operation may
//! give on them, and says what then holds of the result.

pub mod builders;
pub mod data;
pub mod flows;
pub mod views;
pub mod status;
pub mod commands;
pub mod results;
pub mod traffic;
pub mod turns;
pub mod filters;
pub mod texts;
pub mod stream_ids;
