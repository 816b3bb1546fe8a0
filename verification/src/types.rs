//! Data model shared by the circuit store, the job handlers and the session layer.

use vstd::prelude::*;

verus! {

/// The kind of compiled circuit an artifact holds.
#[derive(Debug, Clone, Copy, PartialEq, Eq, Hash, Structural)]
pub enum CircuitType {
    Circom,
    Noir,
}

/// The proving system that consumes a circuit and a witness.
#[derive(Debug, Clone, Copy, PartialEq, Eq, Hash, Structural)]
pub enum ProvingBackend {
    Groth16,
    Plonk,
    UltraHonk,
}

/// Identifier of a registered circuit: the digest of its name, kind and backend.
pub type CircuitId = [u8; 32];

/// Everything the node records about a registered circuit.
///
/// The three paths are relative to the circuit's own directory, so that the
/// store can be moved as a whole.
#[derive(Debug, Clone)]
pub struct CircuitInfo {
    pub id: CircuitId,
    pub name: String,
    pub circuit_type: CircuitType,
    pub proving_backend: ProvingBackend,
    pub artifact_path: String,
    pub proving_key_path: String,
    pub verification_key_path: String,
    pub verifier_address: Option<[u8; 20]>,
}

/// Mathematical content of a [`CircuitInfo`].
pub struct CircuitInfoView {
    pub id: Seq<u8>,
    pub name: Seq<char>,
    pub circuit_type: CircuitType,
    pub proving_backend: ProvingBackend,
    pub artifact_path: Seq<char>,
    pub proving_key_path: Seq<char>,
    pub verification_key_path: Seq<char>,
    pub verifier_address: Option<Seq<u8>>,
}

impl View for CircuitInfo {
    type V = CircuitInfoView;

    open spec fn view(&self) -> CircuitInfoView {
        CircuitInfoView {
            id: self.id@,
            name: self.name@,
            circuit_type: self.circuit_type,
            proving_backend: self.proving_backend,
            artifact_path: self.artifact_path@,
            proving_key_path: self.proving_key_path@,
            verification_key_path: self.verification_key_path@,
            verifier_address: match self.verifier_address {
                Some(a) => Some(a@),
                None => None,
            },
        }
    }
}

/// A proof together with the public inputs it was produced for.
#[derive(Debug, Clone, PartialEq, Eq)]
pub struct ProofResult {
    pub proof_bytes: Vec<u8>,
    pub public_inputs: Vec<Vec<u8>>,
}

/// Witness data handed to a proof job: inline JSON, or a location to fetch JSON from.
#[derive(Debug, Clone)]
pub enum WitnessInput {
    Json(String),
    Uri(String),
}

/// Announcement of an operator's MPC listener, gossiped between operators.
#[derive(Debug, Clone)]
pub struct MpcNetAnnounce {
    /// Serialised public key of the announcing operator.
    pub public_key: Vec<u8>,
    /// Socket address, as text, on which the operator's MPC endpoint listens.
    pub listen_addr: String,
    /// Location of the operator's DER certificate.
    pub cert_path: String,
    /// Freshness counter.
    pub nonce: u64,
}

/// One party of an MPC mesh, as advertised.
#[derive(Debug, Clone)]
pub struct MpcPeerInfo {
    pub id: u32,
    pub dns_name: String,
    pub cert_path: String,
}

/// An advertised MPC mesh: the local party and all of its peers.
#[derive(Debug, Clone)]
pub struct MpcNetworkConfig {
    pub my_id: u32,
    pub bind_addr: String,
    pub key_path: String,
    pub parties: Vec<MpcPeerInfo>,
}

/// Messages of the optional peer announcement protocol.
#[derive(Debug, Clone)]
pub enum MpcDiscoveryMessage {
    /// A node announces its presence and MPC connection details.
    Announce { mpc_id: u16, bind_addr: String, cert_path: String, session_id: u64, timestamp: u64 },
    /// A node confirms that it received an announcement.
    Acknowledge {
        mpc_id: u16,
        bind_addr: String,
        cert_path: String,
        session_id: u64,
        timestamp: u64,
    },
    /// A session is ready to begin.
    SessionReady { session_id: u64, timestamp: u64 },
}

/// Topic on which [`MpcDiscoveryMessage`]s are gossiped.
pub const MPC_DISCOVERY_TOPIC: &'static str = "zkSaaS.mpc.discovery.v1";

impl CircuitType {
    /// The variant's name as text.
    pub open spec fn spec_name(self) -> Seq<char> {
        match self {
            CircuitType::Circom => "Circom"@,
            CircuitType::Noir => "Noir"@,
        }
    }

    /// The variant's name as text.
    pub fn name(&self) -> (out: &'static str)
        ensures
            out@ == self.spec_name(),
    {
        match self {
            CircuitType::Circom => "Circom",
            CircuitType::Noir => "Noir",
        }
    }

    /// File extension of a compiled artifact of this kind.
    pub open spec fn spec_artifact_extension(self) -> Seq<char> {
        match self {
            CircuitType::Circom => "r1cs"@,
            CircuitType::Noir => "acir"@,
        }
    }

    /// File extension of a compiled artifact of this kind.
    pub fn artifact_extension(&self) -> (out: &'static str)
        ensures
            out@ == self.spec_artifact_extension(),
    {
        match self {
            CircuitType::Circom => "r1cs",
            CircuitType::Noir => "acir",
        }
    }
}

impl ProvingBackend {
    /// The variant's name as text.
    pub open spec fn spec_name(self) -> Seq<char> {
        match self {
            ProvingBackend::Groth16 => "Groth16"@,
            ProvingBackend::Plonk => "Plonk"@,
            ProvingBackend::UltraHonk => "UltraHonk"@,
        }
    }

    /// The variant's name as text.
    pub fn name(&self) -> (out: &'static str)
        ensures
            out@ == self.spec_name(),
    {
        match self {
            ProvingBackend::Groth16 => "Groth16",
            ProvingBackend::Plonk => "Plonk",
            ProvingBackend::UltraHonk => "UltraHonk",
        }
    }
}

} // verus!
