//! The two jobs a proving node offers to its host, reduced to their decisions.

pub mod generate_proof;
pub mod register_circuit;

use vstd::prelude::*;

verus! {

/// Identifier of the job that registers a circuit.
pub const REGISTER_CIRCUIT_JOB_ID: u8 = 0;

/// Identifier of the job that generates a proof for a registered circuit.
pub const GENERATE_PROOF_JOB_ID: u8 = 1;

} // verus!
