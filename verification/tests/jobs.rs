use cosnarks_zksaas_blueprint_lib::error::Error;
use cosnarks_zksaas_blueprint_lib::jobs::generate_proof::{
    generate_proof, generate_proof_job, generate_session_id, placeholder_proof, resolve_witness,
    session_id_from_digest,
    ProofAction, ProofEvent, ProofJobState,
};
use cosnarks_zksaas_blueprint_lib::jobs::register_circuit::{
    admit_circuit, check_download_status, generate_circuit_id, generate_keys_placeholder,
    register_circuit, validate_backend_compatibility, MAX_ARTIFACT_BYTES,
};
use cosnarks_zksaas_blueprint_lib::jobs::{GENERATE_PROOF_JOB_ID, REGISTER_CIRCUIT_JOB_ID};
use cosnarks_zksaas_blueprint_lib::keys::{key_le, same_key, sort_keys};
use cosnarks_zksaas_blueprint_lib::state::{CircuitStore, StoreOp};
use cosnarks_zksaas_blueprint_lib::types::{
    CircuitInfo, CircuitType, ProofResult, ProvingBackend, WitnessInput, MPC_DISCOVERY_TOPIC,
};
use sha2::{Digest, Sha256};

const TEST_CIRCUIT_ID: &str = "01b119c4e31ea9eeaf68881947d5200993752306e8df6f46c84765a4dfb61ef8";

#[test]
fn job_identifiers_are_zero_and_one() {
    assert_eq!(REGISTER_CIRCUIT_JOB_ID, 0);
    assert_eq!(GENERATE_PROOF_JOB_ID, 1);
    assert_eq!(MPC_DISCOVERY_TOPIC, "zkSaaS.mpc.discovery.v1");
}

#[test]
fn compatible_pairs_are_exactly_three() {
    let kinds = [CircuitType::Circom, CircuitType::Noir];
    let backends = [ProvingBackend::Groth16, ProvingBackend::Plonk, ProvingBackend::UltraHonk];
    for kind in kinds {
        for backend in backends {
            let expected = matches!(
                (kind, backend),
                (CircuitType::Circom, ProvingBackend::Groth16)
                    | (CircuitType::Circom, ProvingBackend::Plonk)
                    | (CircuitType::Noir, ProvingBackend::UltraHonk)
            );
            let result = validate_backend_compatibility(&kind, &backend);
            assert_eq!(result.is_ok(), expected, "{:?} {:?}", kind, backend);
            if !expected {
                assert!(matches!(result, Err(Error::IncompatibleBackend(_))));
            }
        }
    }
}

#[test]
fn register_rejects_incompatible_backend() {
    let result = register_circuit(
        "c1".to_string(),
        CircuitType::Noir,
        ProvingBackend::Groth16,
        "http://mock/c1.acir",
    );
    match result {
        Err(Error::IncompatibleBackend(text)) => assert_eq!(
            text,
            "Proving backend Groth16 is not compatible with circuit type Noir"
        ),
        other => panic!("unexpected: {:?}", other),
    }
    assert!(matches!(
        register_circuit("c1".to_string(), CircuitType::Noir, ProvingBackend::Groth16, "not a url"),
        Err(Error::IncompatibleBackend(_))
    ));
}

#[test]
fn circuit_id_is_the_digest_of_name_kind_and_backend() {
    let id = generate_circuit_id("test_circuit", &CircuitType::Circom, &ProvingBackend::Groth16);
    assert_eq!(hex::encode(id), TEST_CIRCUIT_ID);
    let mut hasher = Sha256::new();
    hasher.update(b"test_circuit");
    hasher.update(b"Circom");
    hasher.update(b"Groth16");
    let expected: [u8; 32] = hasher.finalize().into();
    assert_eq!(id, expected);
}

#[test]
fn circuit_id_depends_on_every_input_and_on_nothing_else() {
    let base = generate_circuit_id("c", &CircuitType::Circom, &ProvingBackend::Groth16);
    assert_eq!(base, generate_circuit_id("c", &CircuitType::Circom, &ProvingBackend::Groth16));
    assert_ne!(base, generate_circuit_id("d", &CircuitType::Circom, &ProvingBackend::Groth16));
    assert_ne!(base, generate_circuit_id("c", &CircuitType::Circom, &ProvingBackend::Plonk));
    assert_ne!(base, generate_circuit_id("c", &CircuitType::Noir, &ProvingBackend::Groth16));
    let noir = generate_circuit_id("ü", &CircuitType::Noir, &ProvingBackend::UltraHonk);
    let expected: [u8; 32] = Sha256::digest("üNoirUltraHonk".as_bytes()).into();
    assert_eq!(noir, expected);
}

#[test]
fn placeholder_keys_are_fixed() {
    let (pk, vk, address) =
        generate_keys_placeholder(&CircuitType::Circom, &ProvingBackend::Groth16, b"dummy").unwrap();
    assert_eq!(pk, b"fake_proving_key_data".to_vec());
    assert_eq!(vk, b"fake_verification_key_data".to_vec());
    assert_eq!(address, Some([0u8; 20]));
}

#[test]
fn register_success() {
    let registration = register_circuit(
        "test_circuit".to_string(),
        CircuitType::Circom,
        ProvingBackend::Groth16,
        "http://mock/test_circuit.r1cs",
    )
    .unwrap();
    assert_eq!(hex::encode(registration.circuit_id), TEST_CIRCUIT_ID);
    assert_eq!(registration.name, "test_circuit");
    assert_eq!(registration.circuit_type, CircuitType::Circom);
    assert_eq!(registration.proving_backend, ProvingBackend::Groth16);
    assert_eq!(registration.artifact_url, "http://mock/test_circuit.r1cs");
    assert!(check_download_status(&registration.artifact_url, 200).is_ok());

    let store = CircuitStore::new("data".to_string());
    let registered = registration.artifact_downloaded(&store, b"dummy".to_vec()).unwrap();
    assert_eq!(registered.circuit_id.len(), 32);
    assert_eq!(hex::encode(registered.circuit_id), TEST_CIRCUIT_ID);
    assert_eq!(registered.verifier_address, [0u8; 20]);
    assert!(!registered.verification_key.is_empty());
    assert_eq!(registered.verification_key, b"fake_verification_key_data".to_vec());

    let info = &registered.circuit_info;
    assert_eq!(info.id, registered.circuit_id);
    assert_eq!(info.name, "test_circuit");
    assert_eq!(info.circuit_type, CircuitType::Circom);
    assert_eq!(info.proving_backend, ProvingBackend::Groth16);
    assert_eq!(info.artifact_path, "circuit_artifact.r1cs");
    assert_eq!(info.proving_key_path, "proving.key");
    assert_eq!(info.verification_key_path, "verification.key");
    assert_eq!(info.verifier_address, Some([0u8; 20]));

    let dir = format!("data/artifacts/{}", TEST_CIRCUIT_ID);
    let ops = &registered.store_ops;
    assert_eq!(ops.len(), 6);
    assert!(matches!(&ops[0], StoreOp::CreateDirAll { dir: d } if *d == dir));
    assert!(matches!(&ops[1], StoreOp::WriteFile { path, data }
        if *path == format!("{}/circuit_artifact.r1cs", dir) && data == b"dummy"));
    assert!(matches!(&ops[2], StoreOp::WriteFile { path, data }
        if *path == format!("{}/proving.key", dir) && data == b"fake_proving_key_data"));
    assert!(matches!(&ops[3], StoreOp::WriteFile { path, data }
        if *path == format!("{}/verification.key", dir) && data == b"fake_verification_key_data"));
    assert!(matches!(&ops[4], StoreOp::InsertInfo { key, info }
        if key == TEST_CIRCUIT_ID && info.name == "test_circuit" && info.id == registered.circuit_id));
    assert!(matches!(&ops[5], StoreOp::Flush));
}

#[test]
fn register_noir_circuit_stores_an_acir_artifact() {
    let registration = register_circuit(
        "n".to_string(),
        CircuitType::Noir,
        ProvingBackend::UltraHonk,
        "https://example.com/n.acir",
    )
    .unwrap();
    let store = CircuitStore::new("/var/node".to_string());
    let registered = registration.artifact_downloaded(&store, Vec::new()).unwrap();
    assert_eq!(registered.circuit_info.artifact_path, "circuit_artifact.acir");
}

#[test]
fn register_rejects_unparseable_url() {
    for url in ["", "not a url", "../main.css", "http://[:::1]"] {
        let result =
            register_circuit("c".to_string(), CircuitType::Circom, ProvingBackend::Plonk, url);
        assert!(matches!(result, Err(Error::UrlParseError(_))), "{}", url);
    }
    match register_circuit("c".to_string(), CircuitType::Circom, ProvingBackend::Plonk, "../x") {
        Err(Error::UrlParseError(text)) => assert_eq!(text, "relative URL without a base"),
        other => panic!("unexpected: {:?}", other),
    }
}

#[test]
fn register_normalises_the_url() {
    let registration = register_circuit(
        "c".to_string(),
        CircuitType::Circom,
        ProvingBackend::Plonk,
        "HTTP://Example.COM:80/a/../b.r1cs",
    )
    .unwrap();
    assert_eq!(registration.artifact_url, "http://example.com/b.r1cs");
}

#[test]
fn admit_circuit_reports_the_reason_of_the_url_parser() {
    let result = admit_circuit(
        "c".to_string(),
        CircuitType::Circom,
        ProvingBackend::Groth16,
        Err("empty host".to_string()),
    );
    match result {
        Err(Error::UrlParseError(text)) => assert_eq!(text, "empty host"),
        other => panic!("unexpected: {:?}", other),
    }
    let result = admit_circuit(
        "c".to_string(),
        CircuitType::Noir,
        ProvingBackend::Plonk,
        Ok("http://x/".to_string()),
    );
    assert!(matches!(result, Err(Error::IncompatibleBackend(_))));
}

#[test]
fn download_status_outside_the_two_hundreds_is_a_network_error() {
    assert!(check_download_status("http://x/a", 200).is_ok());
    assert!(check_download_status("http://x/a", 204).is_ok());
    assert!(check_download_status("http://x/a", 299).is_ok());
    for status in [0u16, 100, 199, 300, 301, 404, 500, 65535] {
        assert!(matches!(
            check_download_status("http://x/a", status),
            Err(Error::NetworkError(_))
        ));
    }
    match check_download_status("http://x/a", 404) {
        Err(Error::NetworkError(text)) => {
            assert_eq!(text, "Failed to download artifact from http://x/a: Status 404")
        }
        other => panic!("unexpected: {:?}", other),
    }
}

#[test]
fn oversized_artifact_is_refused() {
    let store = CircuitStore::new("data".to_string());
    let registration = register_circuit(
        "c".to_string(),
        CircuitType::Circom,
        ProvingBackend::Groth16,
        "http://mock/c.r1cs",
    )
    .unwrap();
    let at_limit = vec![0u8; MAX_ARTIFACT_BYTES];
    assert!(registration.artifact_downloaded(&store, at_limit).is_ok());
    let registration = register_circuit(
        "c".to_string(),
        CircuitType::Circom,
        ProvingBackend::Groth16,
        "http://mock/c.r1cs",
    )
    .unwrap();
    let too_large = vec![0u8; MAX_ARTIFACT_BYTES + 1];
    assert!(matches!(
        registration.artifact_downloaded(&store, too_large),
        Err(Error::NetworkError(_))
    ));
}

fn expected_session_id(call_id: u64, participants: &[Vec<u8>]) -> String {
    let mut hasher = Sha256::new();
    hasher.update(call_id.to_le_bytes());
    for key in participants {
        hasher.update(key);
    }
    let digest = hasher.finalize();
    let mut first = [0u8; 8];
    first.copy_from_slice(&digest[..8]);
    format!("mpc-session-{}", u64::from_le_bytes(first))
}

#[test]
fn session_id_hashes_the_call_and_the_participants() {
    let keys = vec![vec![1u8, 2, 3], vec![4u8, 5], vec![6u8]];
    let id = generate_session_id(42, &keys);
    assert_eq!(id, expected_session_id(42, &keys));
    assert!(id.starts_with("mpc-session-"));
    assert!(id["mpc-session-".len()..].parse::<u64>().is_ok());
    assert_eq!(generate_session_id(42, &keys), id);
    assert_ne!(generate_session_id(43, &keys), id);
    assert_ne!(generate_session_id(42, &keys[..2].to_vec()), id);
    assert_eq!(generate_session_id(0, &Vec::new()), expected_session_id(0, &[]));
    assert_eq!(generate_session_id(0, &Vec::new()), "mpc-session-8794265229978523055");
}

#[test]
fn session_id_reads_the_first_eight_bytes_of_the_digest() {
    let mut digest = [0xffu8; 32];
    digest[..8].copy_from_slice(&[1, 0, 0, 0, 0, 0, 0, 0]);
    assert_eq!(session_id_from_digest(&digest), "mpc-session-1");
    digest[..8].copy_from_slice(&[0, 1, 0, 0, 0, 0, 0, 0]);
    assert_eq!(session_id_from_digest(&digest), "mpc-session-256");
    assert_eq!(session_id_from_digest(&[0xffu8; 32]), "mpc-session-18446744073709551615");
    assert_eq!(session_id_from_digest(&[0u8; 32]), "mpc-session-0");
}

#[test]
fn witness_is_inline_json_or_the_empty_object() {
    assert_eq!(resolve_witness(WitnessInput::Json("{\"a\":1,\"b\":2}".to_string())), "{\"a\":1,\"b\":2}");
    assert_eq!(resolve_witness(WitnessInput::Uri("https://x/w.json".to_string())), "{}");
}

#[test]
fn placeholder_proof_names_the_circuit_and_the_call() {
    let proof = placeholder_proof("abcd", 17);
    assert_eq!(
        proof,
        ProofResult {
            proof_bytes: b"proof_for_abcd_17".to_vec(),
            public_inputs: vec![b"input_for_17".to_vec()],
        }
    );
}

fn test_info(id: [u8; 32]) -> CircuitInfo {
    CircuitInfo {
        id,
        name: "test_circuit".to_string(),
        circuit_type: CircuitType::Circom,
        proving_backend: ProvingBackend::Groth16,
        artifact_path: "circuit_artifact.r1cs".to_string(),
        proving_key_path: "proving.key".to_string(),
        verification_key_path: "verification.key".to_string(),
        verifier_address: Some([0u8; 20]),
    }
}

#[test]
fn proof_for_unknown_circuit_is_invalid_input() {
    let id = [0xabu8; 32];
    let (job, action) = generate_proof(1, id, "{}".to_string());
    match action {
        ProofAction::LookUpCircuit { circuit_id_hex } => assert_eq!(circuit_id_hex, "ab".repeat(32)),
        other => panic!("unexpected: {:?}", other),
    }
    let (job, action) = job.step(ProofEvent::CircuitLookedUp(None));
    assert!(matches!(job.state, ProofJobState::Finished));
    match action {
        ProofAction::Finish(Err(Error::InvalidInput(text))) => {
            assert_eq!(text, format!("Circuit ID not found: {}", "ab".repeat(32)))
        }
        other => panic!("unexpected: {:?}", other),
    }
}

/// Drives a proof job on one node up to the session it asks for.
fn session_asked_for(call_id: u64, id: [u8; 32], operators: Vec<Vec<u8>>) -> (String, Vec<Vec<u8>>, ProofResult) {
    let witness = WitnessInput::Json("{\"a\":1,\"b\":2}".to_string());
    let (job, action) = generate_proof_job(call_id, id, witness);
    assert_eq!(job.witness_data_json, "{\"a\":1,\"b\":2}");
    assert!(matches!(action, ProofAction::LookUpCircuit { .. }));
    let (job, action) = job.step(ProofEvent::CircuitLookedUp(Some(test_info(id))));
    assert!(matches!(action, ProofAction::ListOperators));
    let (job, action) = job.step(ProofEvent::OperatorsListed(operators));
    let (session_id, participants) = match action {
        ProofAction::EstablishSession { session_id, participants } => (session_id, participants),
        other => panic!("unexpected: {:?}", other),
    };
    match &job.state {
        ProofJobState::AwaitingSession { session_id: kept, circuit_info } => {
            assert_eq!(kept, &session_id);
            assert_eq!(circuit_info.id, id);
        }
        other => panic!("unexpected: {:?}", other),
    }
    let (job, action) = job.step(ProofEvent::SessionEstablished);
    assert!(matches!(job.state, ProofJobState::Finished));
    match action {
        ProofAction::Finish(Ok(proof)) => (session_id, participants, proof),
        other => panic!("unexpected: {:?}", other),
    }
}

#[test]
fn test_e2e_circuit_registration_and_proof() {
    let registration = register_circuit(
        "test_circuit".to_string(),
        CircuitType::Circom,
        ProvingBackend::Groth16,
        "http://127.0.0.1:9001/test_circuit.r1cs",
    )
    .unwrap();
    let store = CircuitStore::new("data".to_string());
    let registered = registration
        .artifact_downloaded(&store, b"dummy circuit artifact data".to_vec())
        .unwrap();
    assert_eq!(registered.circuit_id.len(), 32, "Circuit ID should be 32 bytes");
    assert_eq!(registered.verifier_address.len(), 20, "Verifier address should be 20 bytes");
    assert!(!registered.verification_key.is_empty(), "Verification key should not be empty");
    let circuit_id_hex = hex::encode(registered.circuit_id);
    let dir = format!("data/artifacts/{}", circuit_id_hex);
    let written: Vec<&String> = registered
        .store_ops
        .iter()
        .filter_map(|op| match op {
            StoreOp::WriteFile { path, .. } => Some(path),
            _ => None,
        })
        .collect();
    assert!(written.contains(&&format!("{}/circuit_artifact.r1cs", dir)), "Circuit artifact not found");
    assert!(written.contains(&&format!("{}/proving.key", dir)), "Proving key not found");
    assert!(written.contains(&&format!("{}/verification.key", dir)), "Verification key not found");

    let a = vec![3u8; 33];
    let b = vec![1u8; 33];
    let c = vec![2u8; 33];
    let orders = [
        vec![a.clone(), b.clone(), c.clone()],
        vec![c.clone(), a.clone(), b.clone()],
        vec![b.clone(), c.clone(), a.clone()],
    ];
    let mut sessions = Vec::new();
    for operators in orders {
        let (session_id, participants, proof) =
            session_asked_for(9, registered.circuit_id, operators);
        assert_eq!(participants, vec![b.clone(), c.clone(), a.clone()]);
        assert!(!proof.proof_bytes.is_empty());
        assert!(!proof.public_inputs.is_empty());
        assert_eq!(proof.proof_bytes, format!("proof_for_{}_9", circuit_id_hex).into_bytes());
        sessions.push(session_id);
    }
    assert_eq!(sessions[0], sessions[1]);
    assert_eq!(sessions[1], sessions[2]);
    assert_eq!(sessions[0], expected_session_id(9, &[b, c, a]));
}

#[test]
fn proof_without_operators_is_a_configuration_error() {
    let id = [1u8; 32];
    let (job, _) = generate_proof(5, id, "{}".to_string());
    let (job, _) = job.step(ProofEvent::CircuitLookedUp(Some(test_info(id))));
    let (job, action) = job.step(ProofEvent::OperatorsListed(Vec::new()));
    assert!(matches!(job.state, ProofJobState::Finished));
    match action {
        ProofAction::Finish(Err(Error::ConfigError(text))) => {
            assert_eq!(text, "No operators found for the service/circuit")
        }
        other => panic!("unexpected: {:?}", other),
    }
}

#[test]
fn failure_reported_to_a_proof_job_ends_it() {
    let id = [1u8; 32];
    let (job, _) = generate_proof(5, id, "{}".to_string());
    let (job, action) = job.step(ProofEvent::Failed(Error::StateError("db gone".to_string())));
    assert!(matches!(job.state, ProofJobState::Finished));
    match action {
        ProofAction::Finish(Err(Error::StateError(text))) => assert_eq!(text, "db gone"),
        other => panic!("unexpected: {:?}", other),
    }
    let (_, action) = job.step(ProofEvent::SessionEstablished);
    assert!(matches!(action, ProofAction::Finish(Err(Error::Internal(_)))));
}

#[test]
fn proof_job_events_out_of_order_are_internal_errors() {
    let id = [1u8; 32];
    let (job, _) = generate_proof(5, id, "{}".to_string());
    let (job, action) = job.step(ProofEvent::SessionEstablished);
    assert!(matches!(job.state, ProofJobState::Finished));
    assert!(matches!(action, ProofAction::Finish(Err(Error::Internal(_)))));
    let (job, _) = generate_proof(5, id, "{}".to_string());
    let (_, action) = job.step(ProofEvent::OperatorsListed(vec![vec![1]]));
    assert!(matches!(action, ProofAction::Finish(Err(Error::Internal(_)))));
}

#[test]
fn keys_sort_in_lexicographic_byte_order() {
    let keys = vec![
        vec![2u8, 0],
        vec![],
        vec![1u8, 255, 0],
        vec![2u8],
        vec![1u8, 255],
        vec![255u8],
        vec![2u8, 0],
    ];
    let sorted = sort_keys(&keys);
    let mut expected = keys.clone();
    expected.sort();
    assert_eq!(sorted, expected);
    assert_eq!(
        sorted,
        vec![vec![], vec![1, 255], vec![1, 255, 0], vec![2], vec![2, 0], vec![2, 0], vec![255]]
    );
    assert_eq!(sort_keys(&Vec::new()), Vec::<Vec<u8>>::new());
}

#[test]
fn key_order_and_equality_agree_with_the_standard_ones() {
    let keys: Vec<Vec<u8>> =
        vec![vec![], vec![0], vec![0, 0], vec![0, 1], vec![1], vec![1, 0], vec![255], vec![0, 255]];
    for a in &keys {
        for b in &keys {
            assert_eq!(key_le(a, b), a <= b, "{:?} {:?}", a, b);
            assert_eq!(same_key(a, b), a == b, "{:?} {:?}", a, b);
        }
    }
}
