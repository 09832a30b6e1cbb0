//! Greyhound lattice polynomial commitment scheme for Spartan: the data model,
//! the scalar-to-ring encoding and the decisions of every commitment-engine
//! operation, each with its contract. The C routines of the Greyhound library
//! itself are reached from the application layer, which hands their results
//! back to the functions here.

pub mod greyhound_ffi;
pub mod encoding;
pub mod errors;
pub mod transcript;
pub mod keccak;
pub mod serial;
pub mod greyhound_pc;
pub mod stub_pc;
pub mod msvc_greyhound_pc;
pub mod provider;
