//! Round-based ticket sale and settlement engine.

pub mod account;
pub mod address;
pub mod codec;
pub mod digest;
pub mod error;
pub mod instruction;
pub mod lifecycle;
pub mod processor;
pub mod seeds;
pub mod state;
pub mod text;
pub mod utils;
