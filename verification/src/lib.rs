//! Decoder for the "capsule" measurement format of a spinning LiDAR scanner.
//!
//! A capsule is one fixed-size frame from the sensor: a coarse start angle in
//! 1/64-degree units plus sixteen "cabins", each packing two compressed
//! distance/angle samples. Reconstructing the true per-sample angles needs two
//! consecutive capsules, so [`ns_capsuled_parser::CapsuledParser`] keeps the
//! previously decoded capsule as its one piece of state and interpolates
//! between the two start angles on every call after the first.

pub mod answers;
pub mod ns_capsuled_parser;
