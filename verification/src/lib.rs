//! Operator-side core of a collaborative zero-knowledge proving service.
//!
//! The crate holds the decisions of a proving node: the circuit data model,
//! the commit-reveal exchange that agrees on an MPC mesh configuration, the
//! session bookkeeping around it, the layout of the circuit store and the
//! job handlers' rules. All network and disk work is left to the caller.

pub mod context;
pub mod digest;
pub mod encoding;
pub mod error;
pub mod exchange_laws;
pub mod jobs;
pub mod keys;
pub mod mesh;
pub mod network;
pub mod p2p;
pub mod state;
pub mod store_laws;
pub mod text;
pub mod types;

pub use context::CosnarksContext;
pub use error::Error;
pub use jobs::{GENERATE_PROOF_JOB_ID, REGISTER_CIRCUIT_JOB_ID};
pub use state::CircuitStore;
pub use types::{CircuitId, CircuitInfo, CircuitType, ProofResult, ProvingBackend, WitnessInput};
