//! Decisions of the job that registers a circuit.

use crate::digest::{hex_lower, sha256, spec_sha256};
use crate::error::Error;
use crate::state::{op_views, CircuitStore, StoreOp};
use crate::types::{CircuitId, CircuitInfo, CircuitInfoView, CircuitType, ProvingBackend};
use vstd::prelude::*;
use vstd::slice::slice_to_vec;
use vstd::utf8::encode_utf8;

verus! {

/// Base name of the stored circuit artifact; the extension depends on the circuit kind.
pub const ARTIFACT_FILENAME: &'static str = "circuit_artifact";

/// File name of the stored proving key.
pub const PROVING_KEY_FILENAME: &'static str = "proving.key";

/// File name of the stored verification key.
pub const VERIFICATION_KEY_FILENAME: &'static str = "verification.key";

/// Largest artifact, in bytes, that a registration accepts.
pub const MAX_ARTIFACT_BYTES: usize = 268435456;

/// Whether a proving backend can prove circuits of a kind.
pub open spec fn is_compatible(circuit_type: CircuitType, proving_backend: ProvingBackend) -> bool {
    match (circuit_type, proving_backend) {
        (CircuitType::Circom, ProvingBackend::Groth16) => true,
        (CircuitType::Circom, ProvingBackend::Plonk) => true,
        (CircuitType::Noir, ProvingBackend::UltraHonk) => true,
        _ => false,
    }
}

/// What is reported when a backend cannot prove circuits of a kind.
pub open spec fn incompatibility_text(
    circuit_type: CircuitType,
    proving_backend: ProvingBackend,
) -> Seq<char> {
    "Proving backend "@ + proving_backend.spec_name() + " is not compatible with circuit type "@
        + circuit_type.spec_name()
}

/// Accepts exactly the pairs Circom with Groth16, Circom with Plonk, and Noir
/// with UltraHonk.
pub fn validate_backend_compatibility(
    circuit_type: &CircuitType,
    proving_backend: &ProvingBackend,
) -> (out: Result<(), Error>)
    ensures
        is_compatible(*circuit_type, *proving_backend) ==> out is Ok,
        !is_compatible(*circuit_type, *proving_backend) ==> ({
            &&& out matches Err(Error::IncompatibleBackend(text))
            &&& text@ == incompatibility_text(*circuit_type, *proving_backend)
        }),
{
    match (circuit_type, proving_backend) {
        (CircuitType::Circom, ProvingBackend::Groth16) => Ok(()),
        (CircuitType::Circom, ProvingBackend::Plonk) => Ok(()),
        (CircuitType::Noir, ProvingBackend::UltraHonk) => Ok(()),
        _ => {
            let mut text = String::from_str("Proving backend ");
            text.append(proving_backend.name());
            text.append(" is not compatible with circuit type ");
            text.append(circuit_type.name());
            Err(Error::IncompatibleBackend(text))
        },
    }
}

/// The bytes that identify a circuit: its name, then the names of its kind and
/// of its backend, each in UTF-8.
pub open spec fn circuit_id_preimage(
    name: Seq<char>,
    circuit_type: CircuitType,
    proving_backend: ProvingBackend,
) -> Seq<u8> {
    encode_utf8(name) + encode_utf8(circuit_type.spec_name()) + encode_utf8(
        proving_backend.spec_name(),
    )
}

/// The identifier of a circuit: the SHA-256 digest of its identifying bytes.
pub open spec fn spec_circuit_id(
    name: Seq<char>,
    circuit_type: CircuitType,
    proving_backend: ProvingBackend,
) -> Seq<u8> {
    spec_sha256(circuit_id_preimage(name, circuit_type, proving_backend))
}

/// Derives the identifier of a circuit from its name, kind and backend. The
/// identifier depends on nothing else, so every operator derives the same one.
pub fn generate_circuit_id(
    name: &str,
    circuit_type: &CircuitType,
    proving_backend: &ProvingBackend,
) -> (out: CircuitId)
    ensures
        out@ == spec_circuit_id(name@, *circuit_type, *proving_backend),
{
    let mut preimage: Vec<u8> = Vec::new();
    preimage.extend_from_slice(name.as_bytes());
    assert(preimage@ =~= encode_utf8(name@));
    let ghost first = preimage@;
    preimage.extend_from_slice(circuit_type.name().as_bytes());
    assert(preimage@ =~= first + encode_utf8(circuit_type.spec_name()));
    let ghost second = preimage@;
    preimage.extend_from_slice(proving_backend.name().as_bytes());
    assert(preimage@ =~= second + encode_utf8(proving_backend.spec_name()));
    sha256(preimage.as_slice())
}

/// The proving key that stands in until real key generation is wired up.
pub open spec fn placeholder_proving_key() -> Seq<u8> {
    encode_utf8("fake_proving_key_data"@)
}

/// The verification key that stands in until real key generation is wired up.
pub open spec fn placeholder_verification_key() -> Seq<u8> {
    encode_utf8("fake_verification_key_data"@)
}

/// Derives the proving key, the verification key and the verifier address of a
/// circuit. For now the keys are fixed stand-ins and the address is all zero,
/// whatever the circuit.
pub fn generate_keys_placeholder(
    _circuit_type: &CircuitType,
    _proving_backend: &ProvingBackend,
    _artifact_data: &[u8],
) -> (out: Result<(Vec<u8>, Vec<u8>, Option<[u8; 20]>), Error>)
    ensures
        out is Ok,
        out.unwrap().0@ == placeholder_proving_key(),
        out.unwrap().1@ == placeholder_verification_key(),
        out.unwrap().2 is Some,
        out.unwrap().2.unwrap()@ == Seq::new(20, |k: int| 0u8),
{
    let proving_key_data = slice_to_vec("fake_proving_key_data".as_bytes());
    let verification_key_data = slice_to_vec("fake_verification_key_data".as_bytes());
    let verifier_address: [u8; 20] = [0u8; 20];
    assert(verifier_address@ =~= Seq::new(20, |k: int| 0u8));
    Ok((proving_key_data, verification_key_data, Some(verifier_address)))
}

/// What the `url` crate makes of a text: the normalised absolute URL it
/// parses to, or the reason why it is none.
pub uninterp spec fn spec_parse_url(text: Seq<char>) -> Result<Seq<char>, Seq<char>>;

/// Calls `url::Url::parse` on `text` and hands back the parsed URL in its
/// serialised form, or the parse error rendered as text. Both depend on the
/// text alone.
#[verifier::external_body]
fn parse_url(text: &str) -> (out: Result<String, String>)
    ensures
        match out {
            Ok(url) => spec_parse_url(text@) == Ok::<Seq<char>, Seq<char>>(url@),
            Err(reason) => spec_parse_url(text@) == Err::<Seq<char>, Seq<char>>(reason@),
        },
{
    match url::Url::parse(text) {
        Ok(url) => Ok(String::from(url)),
        Err(e) => Err(e.to_string()),
    }
}

/// A registration that is under way: the circuit is admissible and identified,
/// and its artifact is to be downloaded from `artifact_url`.
#[derive(Debug)]
pub struct Registration {
    pub circuit_id: CircuitId,
    pub name: String,
    pub circuit_type: CircuitType,
    pub proving_backend: ProvingBackend,
    pub artifact_url: String,
}

/// Admits a circuit for registration, given what became of its artifact URL.
///
/// An incompatible backend is rejected first. Then an unparseable URL is
/// rejected with the parser's reason. Otherwise the registration carries the
/// circuit's identifier and the parsed URL.
pub fn admit_circuit(
    name: String,
    circuit_type: CircuitType,
    proving_backend: ProvingBackend,
    parsed_url: Result<String, String>,
) -> (out: Result<Registration, Error>)
    ensures
        if !is_compatible(circuit_type, proving_backend) {
            &&& out matches Err(Error::IncompatibleBackend(text))
            &&& text@ == incompatibility_text(circuit_type, proving_backend)
        } else {
            match parsed_url {
                Err(reason) => out matches Err(Error::UrlParseError(text)) && text@ == reason@,
                Ok(url) => {
                    &&& out matches Ok(registration)
                    &&& registration.circuit_id@ == spec_circuit_id(
                        name@,
                        circuit_type,
                        proving_backend,
                    )
                    &&& registration.name@ == name@
                    &&& registration.circuit_type == circuit_type
                    &&& registration.proving_backend == proving_backend
                    &&& registration.artifact_url@ == url@
                },
            }
        },
{
    match validate_backend_compatibility(&circuit_type, &proving_backend) {
        Err(e) => {
            return Err(e);
        },
        Ok(()) => {},
    }
    let circuit_id = generate_circuit_id(name.as_str(), &circuit_type, &proving_backend);
    match parsed_url {
        Err(reason) => Err(Error::UrlParseError(reason)),
        Ok(artifact_url) => Ok(
            Registration { circuit_id, name, circuit_type, proving_backend, artifact_url },
        ),
    }
}

/// Begins the registration of a circuit: checks that the backend can prove
/// circuits of the kind, derives the circuit's identifier and parses the
/// location of its artifact.
pub fn register_circuit(
    name: String,
    circuit_type: CircuitType,
    proving_backend: ProvingBackend,
    artifact_url_str: &str,
) -> (out: Result<Registration, Error>)
    ensures
        if !is_compatible(circuit_type, proving_backend) {
            &&& out matches Err(Error::IncompatibleBackend(text))
            &&& text@ == incompatibility_text(circuit_type, proving_backend)
        } else {
            match spec_parse_url(artifact_url_str@) {
                Err(reason) => out matches Err(Error::UrlParseError(text)) && text@ == reason,
                Ok(url) => {
                    &&& out matches Ok(registration)
                    &&& registration.circuit_id@ == spec_circuit_id(
                        name@,
                        circuit_type,
                        proving_backend,
                    )
                    &&& registration.name@ == name@
                    &&& registration.circuit_type == circuit_type
                    &&& registration.proving_backend == proving_backend
                    &&& registration.artifact_url@ == url
                },
            }
        },
{
    let parsed_url = parse_url(artifact_url_str);
    admit_circuit(name, circuit_type, proving_backend, parsed_url)
}

/// What is reported when the artifact's server answers with a failure status.
pub open spec fn download_failure_text(url: Seq<char>, status: u16) -> Seq<char> {
    "Failed to download artifact from "@ + url + ": Status "@ + crate::text::decimal_digits(
        status as nat,
    )
}

/// Judges the status of the artifact download: the statuses 200 to 299 are
/// successes, every other one is a network error.
pub fn check_download_status(url: &str, status: u16) -> (out: Result<(), Error>)
    ensures
        200 <= status <= 299 ==> out is Ok,
        !(200 <= status <= 299) ==> ({
            &&& out matches Err(Error::NetworkError(text))
            &&& text@ == download_failure_text(url@, status)
        }),
{
    if 200 <= status && status <= 299 {
        Ok(())
    } else {
        let mut text = String::from_str("Failed to download artifact from ");
        text.append(url);
        text.append(": Status ");
        crate::text::push_decimal(&mut text, status as u64);
        assert(text@ =~= download_failure_text(url@, status));
        Err(Error::NetworkError(text))
    }
}

/// The name under which a circuit's artifact is stored.
pub open spec fn artifact_filename(circuit_type: CircuitType) -> Seq<char> {
    ARTIFACT_FILENAME@ + "."@ + circuit_type.spec_artifact_extension()
}

/// The metadata recorded for a registered circuit.
pub open spec fn registered_info(registration: Registration) -> CircuitInfoView {
    CircuitInfoView {
        id: registration.circuit_id@,
        name: registration.name@,
        circuit_type: registration.circuit_type,
        proving_backend: registration.proving_backend,
        artifact_path: artifact_filename(registration.circuit_type),
        proving_key_path: PROVING_KEY_FILENAME@,
        verification_key_path: VERIFICATION_KEY_FILENAME@,
        verifier_address: Some(Seq::new(20, |k: int| 0u8)),
    }
}

/// A completed registration: what to record, how to store it, and what to
/// answer the host.
#[derive(Debug)]
pub struct Registered {
    /// The circuit's metadata.
    pub circuit_info: CircuitInfo,
    /// The disk operations that store the circuit, in the order to perform them.
    pub store_ops: Vec<StoreOp>,
    /// The circuit's identifier.
    pub circuit_id: CircuitId,
    /// The address of the verifier contract; all zero where there is none.
    pub verifier_address: [u8; 20],
    /// The verification key.
    pub verification_key: Vec<u8>,
}

impl Registration {
    /// Completes the registration once the artifact is downloaded.
    ///
    /// An artifact of more than [`MAX_ARTIFACT_BYTES`] bytes is refused as a
    /// network error. Otherwise the keys are derived, the metadata is made up
    /// with paths relative to the circuit's directory, and the circuit is
    /// planned to be stored: blobs first, metadata second, flush last.
    pub fn artifact_downloaded(self, store: &CircuitStore, artifact_data: Vec<u8>) -> (out: Result<Registered, Error>)
        requires
            store.wf(),
        ensures
            artifact_data.len() > MAX_ARTIFACT_BYTES ==> ({
                &&& out matches Err(Error::NetworkError(text))
                &&& text@ == "Artifact exceeds the size limit"@
            }),
            artifact_data.len() <= MAX_ARTIFACT_BYTES ==> ({
                &&& out matches Ok(registered)
                &&& registered.circuit_info@ == registered_info(self)
                &&& op_views(registered.store_ops@) == store.spec_put(
                    hex_lower(self.circuit_id@),
                    registered_info(self),
                    artifact_data@,
                    placeholder_proving_key(),
                    placeholder_verification_key(),
                )
                &&& registered.circuit_id == self.circuit_id
                &&& registered.verifier_address@ == Seq::new(20, |k: int| 0u8)
                &&& registered.verification_key@ == placeholder_verification_key()
            }),
    {
        if artifact_data.len() > MAX_ARTIFACT_BYTES {
            return Err(Error::NetworkError(String::from_str("Artifact exceeds the size limit")));
        }
        let keys = generate_keys_placeholder(
            &self.circuit_type,
            &self.proving_backend,
            artifact_data.as_slice(),
        ).unwrap();
        let proving_key_data = keys.0;
        let verification_key_data = keys.1;
        let verifier_address = keys.2;
        let mut artifact_name = String::from_str(ARTIFACT_FILENAME);
        artifact_name.append(".");
        artifact_name.append(self.circuit_type.artifact_extension());
        assert(artifact_name@ =~= artifact_filename(self.circuit_type));
        let circuit_info = CircuitInfo {
            id: self.circuit_id,
            name: self.name,
            circuit_type: self.circuit_type,
            proving_backend: self.proving_backend,
            artifact_path: artifact_name.clone(),
            proving_key_path: String::from_str(PROVING_KEY_FILENAME),
            verification_key_path: String::from_str(VERIFICATION_KEY_FILENAME),
            verifier_address,
        };
        assert(circuit_info@ == registered_info(self));
        let store_ops = store.put(
            &circuit_info,
            artifact_data.as_slice(),
            proving_key_data.as_slice(),
            verification_key_data.as_slice(),
        );
        let address = match verifier_address {
            Some(address) => address,
            None => [0u8; 20],
        };
        Ok(
            Registered {
                circuit_info,
                store_ops,
                circuit_id: self.circuit_id,
                verifier_address: address,
                verification_key: verification_key_data,
            },
        )
    }
}

} // verus!
