//! Decisions of the job that generates a proof.

use crate::digest::{hex_encode, hex_lower, sha256, spec_sha256};
use crate::error::Error;
use crate::keys::{is_ascending, key_views, sort_keys, PublicKey};
use crate::text::{decimal_digits, push_decimal};
use crate::types::{CircuitId, CircuitInfo, ProofResult, WitnessInput};
use vstd::bytes::{spec_u64_from_le_bytes, spec_u64_to_le_bytes, u64_from_le_bytes, u64_to_le_bytes};
use vstd::prelude::*;
use vstd::slice::slice_subrange;
use vstd::utf8::encode_utf8;

verus! {

/// The bytes that identify a session: the call identifier as eight
/// little-endian bytes, then each of the first `k` keys.
pub open spec fn session_preimage(call_id: u64, keys: Seq<Seq<u8>>, k: int) -> Seq<u8>
    decreases k,
{
    if k <= 0 {
        spec_u64_to_le_bytes(call_id)
    } else {
        session_preimage(call_id, keys, k - 1) + keys[k - 1]
    }
}

/// The session identifier that belongs to a digest: the fixed prefix, then the
/// decimal rendering of the digest's first eight bytes read as a little-endian
/// number.
pub open spec fn spec_session_id_from_digest(digest: Seq<u8>) -> Seq<char> {
    "mpc-session-"@ + decimal_digits(spec_u64_from_le_bytes(digest.subrange(0, 8)) as nat)
}

/// The identifier of the session that a call opens among the given keys: the
/// one that belongs to the SHA-256 digest of the session's identifying bytes.
pub open spec fn spec_session_id(call_id: u64, keys: Seq<Seq<u8>>) -> Seq<char> {
    spec_session_id_from_digest(spec_sha256(session_preimage(call_id, keys, keys.len() as int)))
}

/// Renders the session identifier that belongs to a digest.
pub fn session_id_from_digest(digest: &[u8; 32]) -> (out: String)
    ensures
        out@ == spec_session_id_from_digest(digest@),
{
    let number = u64_from_le_bytes(slice_subrange(digest.as_slice(), 0, 8));
    let mut out = String::from_str("mpc-session-");
    push_decimal(&mut out, number);
    out
}

/// Derives the session identifier from the call identifier and the ordered
/// participants. Nodes that agree on both derive the same identifier.
pub fn generate_session_id(call_id: u64, participants: &Vec<PublicKey>) -> (out: String)
    ensures
        out@ == spec_session_id(call_id, key_views(participants@)),
{
    let mut preimage = u64_to_le_bytes(call_id);
    let mut k: usize = 0;
    while k < participants.len()
        invariant
            k <= participants.len(),
            preimage@ == session_preimage(call_id, key_views(participants@), k as int),
        decreases participants.len() - k,
    {
        let ghost before = preimage@;
        preimage.extend_from_slice(participants[k].as_slice());
        assert(preimage@ =~= before + participants@[k as int]@);
        k = k + 1;
    }
    let digest = sha256(preimage.as_slice());
    session_id_from_digest(&digest)
}

/// The witness a job works with: inline JSON as given, and the empty object in
/// place of one that would have to be fetched.
pub open spec fn spec_resolve_witness(input: WitnessInput) -> Seq<char> {
    match input {
        WitnessInput::Json(json) => json@,
        WitnessInput::Uri(_) => "{}"@,
    }
}

/// Resolves the witness of a proof job to JSON text.
pub fn resolve_witness(input: WitnessInput) -> (out: String)
    ensures
        out@ == spec_resolve_witness(input),
{
    match input {
        WitnessInput::Json(json) => json,
        WitnessInput::Uri(_) => String::from_str("{}"),
    }
}

/// The stand-in proof for a circuit and a call.
pub open spec fn placeholder_proof_bytes(circuit_id_hex: Seq<char>, call_id: u64) -> Seq<u8> {
    encode_utf8("proof_for_"@ + circuit_id_hex + "_"@ + decimal_digits(call_id as nat))
}

/// The stand-in public input for a call.
pub open spec fn placeholder_public_input(call_id: u64) -> Seq<u8> {
    encode_utf8("input_for_"@ + decimal_digits(call_id as nat))
}

/// Produces the stand-in proof that is returned until a proving backend is wired up.
pub fn placeholder_proof(circuit_id_hex: &str, call_id: u64) -> (out: ProofResult)
    ensures
        out.proof_bytes@ == placeholder_proof_bytes(circuit_id_hex@, call_id),
        out.public_inputs@.len() == 1,
        out.public_inputs@[0]@ == placeholder_public_input(call_id),
{
    let mut proof_text = String::from_str("proof_for_");
    proof_text.append(circuit_id_hex);
    proof_text.append("_");
    push_decimal(&mut proof_text, call_id);
    assert(proof_text@ =~= "proof_for_"@ + circuit_id_hex@ + "_"@ + decimal_digits(call_id as nat));
    let mut input_text = String::from_str("input_for_");
    push_decimal(&mut input_text, call_id);
    let mut public_inputs: Vec<Vec<u8>> = Vec::new();
    public_inputs.push(input_text.as_str().as_bytes_vec());
    ProofResult { proof_bytes: proof_text.as_str().as_bytes_vec(), public_inputs }
}

/// Where a proof job stands.
#[derive(Debug)]
pub enum ProofJobState {
    /// The circuit is being looked up in the store.
    AwaitingCircuit,
    /// The circuit is known; the operator registry is being queried.
    AwaitingOperators { circuit_info: CircuitInfo },
    /// The MPC session is being established.
    AwaitingSession { circuit_info: CircuitInfo, session_id: String },
    /// The job has ended.
    Finished,
}

/// What the surroundings report to a proof job.
#[derive(Debug)]
pub enum ProofEvent {
    /// The store was asked for the circuit; this is what it holds.
    CircuitLookedUp(Option<CircuitInfo>),
    /// The registry was asked for the operators; these are their keys.
    OperatorsListed(Vec<PublicKey>),
    /// The MPC session is established.
    SessionEstablished,
    /// The requested action failed.
    Failed(Error),
}

/// What a proof job asks of its driver.
#[derive(Debug)]
pub enum ProofAction {
    /// Look up the circuit stored under this key.
    LookUpCircuit { circuit_id_hex: String },
    /// Query the operator registry.
    ListOperators,
    /// Establish the MPC session with this identifier among these participants.
    EstablishSession { session_id: String, participants: Vec<PublicKey> },
    /// Stop: the job has ended with this result.
    Finish(Result<ProofResult, Error>),
}

/// A proof job as a state machine: the driver performs each action and reports
/// back what happened.
#[derive(Debug)]
pub struct ProofJob {
    /// Identifier of the call that started the job.
    pub call_id: u64,
    /// The circuit to prove.
    pub circuit_id: CircuitId,
    /// The circuit's key in the store.
    pub circuit_id_hex: String,
    /// The witness, as JSON text.
    pub witness_data_json: String,
    /// Progress so far.
    pub state: ProofJobState,
}

/// Starts a proof job from the arguments the host delivers.
pub fn generate_proof_job(call_id: u64, circuit_id: CircuitId, witness_input: WitnessInput) -> (out: (ProofJob, ProofAction))
    ensures
        out.0.call_id == call_id,
        out.0.circuit_id == circuit_id,
        out.0.circuit_id_hex@ == hex_lower(circuit_id@),
        out.0.witness_data_json@ == spec_resolve_witness(witness_input),
        out.0.state is AwaitingCircuit,
        out.1 matches ProofAction::LookUpCircuit { circuit_id_hex } && circuit_id_hex@ == hex_lower(
            circuit_id@,
        ),
{
    generate_proof(call_id, circuit_id, resolve_witness(witness_input))
}

/// Starts a proof job for a circuit and a witness: the first thing to do is to
/// look the circuit up under the hexadecimal rendering of its identifier.
pub fn generate_proof(call_id: u64, circuit_id: CircuitId, witness_data_json: String) -> (out: (ProofJob, ProofAction))
    ensures
        out.0.call_id == call_id,
        out.0.circuit_id == circuit_id,
        out.0.circuit_id_hex@ == hex_lower(circuit_id@),
        out.0.witness_data_json == witness_data_json,
        out.0.state is AwaitingCircuit,
        out.1 matches ProofAction::LookUpCircuit { circuit_id_hex } && circuit_id_hex@ == hex_lower(
            circuit_id@,
        ),
{
    let circuit_id_hex = hex_encode(circuit_id.as_slice());
    let key = circuit_id_hex.clone();
    (
        ProofJob {
            call_id,
            circuit_id,
            circuit_id_hex,
            witness_data_json,
            state: ProofJobState::AwaitingCircuit,
        },
        ProofAction::LookUpCircuit { circuit_id_hex: key },
    )
}

impl ProofJob {
    /// Advances the job by one event.
    ///
    /// A failure reported by the driver ends a running job with that failure.
    /// An unknown circuit ends it with an invalid-input error that names the
    /// circuit's key. A known circuit leads to the operator query. An empty
    /// operator list ends the job with a configuration error; otherwise the
    /// operators, sorted into their canonical order, are the participants of the
    /// session whose identifier is derived from the call and from them. Once the
    /// session is established the job ends with the proof. Any other event is
    /// out of order and ends the job with an internal error.
    pub fn step(self, event: ProofEvent) -> (out: (Self, ProofAction))
        ensures
            out.0.call_id == self.call_id,
            out.0.circuit_id == self.circuit_id,
            out.0.circuit_id_hex@ == self.circuit_id_hex@,
            out.0.witness_data_json@ == self.witness_data_json@,
            match (self.state, event) {
                (ProofJobState::Finished, _) => {
                    &&& out.0.state is Finished
                    &&& out.1 matches ProofAction::Finish(Err(Error::Internal(text)))
                    &&& text@ == "the job has already ended"@
                },
                (_, ProofEvent::Failed(e)) => {
                    &&& out.0.state is Finished
                    &&& out.1 matches ProofAction::Finish(Err(reported))
                    &&& reported == e
                },
                (ProofJobState::AwaitingCircuit, ProofEvent::CircuitLookedUp(None)) => {
                    &&& out.0.state is Finished
                    &&& out.1 matches ProofAction::Finish(Err(Error::InvalidInput(text)))
                    &&& text@ == "Circuit ID not found: "@ + self.circuit_id_hex@
                },
                (ProofJobState::AwaitingCircuit, ProofEvent::CircuitLookedUp(Some(info))) => {
                    &&& out.0.state matches ProofJobState::AwaitingOperators { circuit_info }
                    &&& circuit_info == info
                    &&& out.1 is ListOperators
                },
                (
                    ProofJobState::AwaitingOperators { circuit_info },
                    ProofEvent::OperatorsListed(operators),
                ) => {
                    if operators.len() == 0 {
                        &&& out.0.state is Finished
                        &&& out.1 matches ProofAction::Finish(Err(Error::ConfigError(text)))
                        &&& text@ == "No operators found for the service/circuit"@
                    } else {
                        &&& out.0.state matches ProofJobState::AwaitingSession {
                            circuit_info: kept,
                            session_id: expected,
                        }
                        &&& kept == circuit_info
                        &&& out.1 matches ProofAction::EstablishSession { session_id, participants }
                        &&& is_ascending(key_views(participants@))
                        &&& key_views(participants@).to_multiset() == key_views(
                            operators@,
                        ).to_multiset()
                        &&& session_id@ == spec_session_id(self.call_id, key_views(participants@))
                        &&& expected@ == session_id@
                    }
                },
                (ProofJobState::AwaitingSession { .. }, ProofEvent::SessionEstablished) => {
                    &&& out.0.state is Finished
                    &&& out.1 matches ProofAction::Finish(Ok(proof))
                    &&& proof.proof_bytes@ == placeholder_proof_bytes(
                        self.circuit_id_hex@,
                        self.call_id,
                    )
                    &&& proof.public_inputs@.len() == 1
                    &&& proof.public_inputs@[0]@ == placeholder_public_input(self.call_id)
                },
                _ => {
                    &&& out.0.state is Finished
                    &&& out.1 matches ProofAction::Finish(Err(Error::Internal(text)))
                    &&& text@ == "event out of order"@
                },
            },
    {
        let ProofJob { call_id, circuit_id, circuit_id_hex, witness_data_json, state } = self;
        let (next, action) = match (state, event) {
            (ProofJobState::Finished, _) => (
                ProofJobState::Finished,
                ProofAction::Finish(
                    Err(Error::Internal(String::from_str("the job has already ended"))),
                ),
            ),
            (_, ProofEvent::Failed(e)) => (ProofJobState::Finished, ProofAction::Finish(Err(e))),
            (ProofJobState::AwaitingCircuit, ProofEvent::CircuitLookedUp(None)) => {
                let mut text = String::from_str("Circuit ID not found: ");
                text.append(circuit_id_hex.as_str());
                (ProofJobState::Finished, ProofAction::Finish(Err(Error::InvalidInput(text))))
            },
            (ProofJobState::AwaitingCircuit, ProofEvent::CircuitLookedUp(Some(info))) => (
                ProofJobState::AwaitingOperators { circuit_info: info },
                ProofAction::ListOperators,
            ),
            (
                ProofJobState::AwaitingOperators { circuit_info },
                ProofEvent::OperatorsListed(operators),
            ) => {
                if operators.len() == 0 {
                    (
                        ProofJobState::Finished,
                        ProofAction::Finish(
                            Err(
                                Error::ConfigError(
                                    String::from_str("No operators found for the service/circuit"),
                                ),
                            ),
                        ),
                    )
                } else {
                    let participants = sort_keys(&operators);
                    let session_id = generate_session_id(call_id, &participants);
                    let kept = session_id.clone();
                    (
                        ProofJobState::AwaitingSession { circuit_info, session_id: kept },
                        ProofAction::EstablishSession { session_id, participants },
                    )
                }
            },
            (ProofJobState::AwaitingSession { .. }, ProofEvent::SessionEstablished) => (
                ProofJobState::Finished,
                ProofAction::Finish(Ok(placeholder_proof(circuit_id_hex.as_str(), call_id))),
            ),
            _ => (
                ProofJobState::Finished,
                ProofAction::Finish(Err(Error::Internal(String::from_str("event out of order")))),
            ),
        };
        (ProofJob { call_id, circuit_id, circuit_id_hex, witness_data_json, state: next }, action)
    }
}

} // verus!
