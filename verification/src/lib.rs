//! PRAGMA operations of a quantum circuit: instructions that annotate or alter a
//! circuit (state initialisation, timing, decomposition blocks, noise, conditional
//! sub-circuits) without being unitary gates.
//!
//! Every operation is immutable value data. It can be asked which qubits it
//! involves, it can be copied with its qubits remapped or its symbolic
//! parameters resolved, and the noise operations give their channel as a
//! superoperator. All of this is stated in contracts and proved.

pub mod arrays;
pub mod calculator;
pub mod channel;
pub mod circuit;
pub mod error;
pub mod involved;
pub mod laws;
pub mod mapping;
pub mod model;
pub mod noise;
pub mod operations;
pub mod pragma;
pub mod tags;

pub use crate::circuit::Circuit;
pub use crate::error::RoqoqoError;
