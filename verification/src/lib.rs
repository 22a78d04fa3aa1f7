//! Verified core of a Rust front end to the RocketSim arena simulator.

pub mod arena;
pub mod error;
