//! A single-upstream TCP relay, written as verified state machines.
//!
//! The library decides; the program around it performs the socket work and
//! feeds the outcome of each operation back in as an event.
pub mod config;
pub mod error;
pub mod listener;
pub mod pump;
pub mod relay;
pub mod transport;

pub use error::{fail_with_error, MyError};
