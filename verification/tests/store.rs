use cosnarks_zksaas_blueprint_lib::context::{CosnarksContext, ListenSetting};
use cosnarks_zksaas_blueprint_lib::digest::{hex_decode_32, hex_value};
use cosnarks_zksaas_blueprint_lib::jobs::generate_proof::{generate_proof, ProofAction};
use cosnarks_zksaas_blueprint_lib::error::{push_blame, push_blames, Error};
use cosnarks_zksaas_blueprint_lib::mesh::{Address, NetworkPartyConfig};
use cosnarks_zksaas_blueprint_lib::network::Establishment;
use cosnarks_zksaas_blueprint_lib::p2p::Blame;
use cosnarks_zksaas_blueprint_lib::state::{
    copy_info, join, CircuitStore, StoreOp, ARTIFACTS_SUBDIR, DB_SUBDIR, INFO_TREE_NAME,
};
use cosnarks_zksaas_blueprint_lib::types::{CircuitInfo, CircuitType, ProvingBackend};

fn info(id: [u8; 32]) -> CircuitInfo {
    CircuitInfo {
        id,
        name: "c".to_string(),
        circuit_type: CircuitType::Noir,
        proving_backend: ProvingBackend::UltraHonk,
        artifact_path: "circuit_artifact.acir".to_string(),
        proving_key_path: "proving.key".to_string(),
        verification_key_path: "verification.key".to_string(),
        verifier_address: None,
    }
}

/// The key under which a proof job looks a circuit up.
fn key_of(id: [u8; 32]) -> String {
    match generate_proof(0, id, String::new()).1 {
        ProofAction::LookUpCircuit { circuit_id_hex } => circuit_id_hex,
        other => panic!("unexpected: {:?}", other),
    }
}

#[test]
fn hex_rendering_is_lowercase_two_digits_per_byte() {
    let mut id = [0u8; 32];
    id[..8].copy_from_slice(&[1, 2, 3, 15, 16, 0x9a, 0xff, 0xa0]);
    assert_eq!(key_of(id), format!("0102030f109affa0{}", "00".repeat(24)));
    assert_eq!(key_of([0xabu8; 32]), "ab".repeat(32));
    let mut text = [0u8; 32];
    text[..12].copy_from_slice("Hello world!".as_bytes());
    assert_eq!(key_of(text), format!("48656c6c6f20776f726c6421{}", "00".repeat(20)));
}

#[test]
fn hex_digits_have_values_below_sixteen() {
    assert_eq!(hex_value(b'0'), Some(0));
    assert_eq!(hex_value(b'9'), Some(9));
    assert_eq!(hex_value(b'a'), Some(10));
    assert_eq!(hex_value(b'f'), Some(15));
    for code in [b'/', b':', b'`', b'g', b'A', b'F', b' ', 0u8, 255u8] {
        assert_eq!(hex_value(code), None);
    }
}

#[test]
fn circuit_keys_are_read_back_as_identifiers() {
    let mut id = [0u8; 32];
    for (k, byte) in id.iter_mut().enumerate() {
        *byte = (k as u8).wrapping_mul(13).wrapping_add(200);
    }
    let key = key_of(id);
    assert_eq!(hex_decode_32(key.as_bytes()), Some(id));
    assert_eq!(hex_decode_32(&key.as_bytes()[..62]), None);
    assert_eq!(hex_decode_32(key.to_uppercase().as_bytes()), None);
    let mut longer = key.clone();
    longer.push_str("00");
    assert_eq!(hex_decode_32(longer.as_bytes()), None);
    let mut spoiled = key.clone().into_bytes();
    spoiled[63] = b'g';
    assert_eq!(hex_decode_32(&spoiled), None);
    assert_eq!(hex_decode_32("00".repeat(32).as_bytes()), Some([0u8; 32]));
}

#[test]
fn store_lists_the_keys_of_the_metadata_table() {
    let store = CircuitStore::new("data".to_string());
    let keys = vec![
        "ab".repeat(32).into_bytes(),
        b"circuit".to_vec(),
        vec![0xff, 0xfe],
        "0f".repeat(32).into_bytes(),
    ];
    let listed = store.list_circuit_ids(&keys);
    assert_eq!(listed.len(), 4);
    assert_eq!(listed[0].as_ref().unwrap(), &[0xabu8; 32]);
    assert!(matches!(listed[1], Err(Error::StateError(_))));
    assert!(matches!(listed[2], Err(Error::StateError(_))));
    assert_eq!(listed[3].as_ref().unwrap(), &[0x0fu8; 32]);
    assert!(store.list_circuit_ids(&Vec::new()).is_empty());
}

#[test]
fn store_is_laid_out_below_its_base_directory() {
    assert_eq!(DB_SUBDIR, "circuit_db");
    assert_eq!(ARTIFACTS_SUBDIR, "artifacts");
    assert_eq!(INFO_TREE_NAME, "circuit_info");
    assert_eq!(join("a/b", "c"), "a/b/c");
    assert_eq!(join("", ""), "/");
    let store = CircuitStore::new("/srv/node".to_string());
    assert_eq!(store.get_db_path(), "/srv/node/circuit_db");
    assert_eq!(store.get_artifacts_base_path(), "/srv/node/artifacts");
    let dirs = store.directories();
    assert_eq!(dirs.len(), 2);
    assert!(matches!(&dirs[0], StoreOp::CreateDirAll { dir } if dir == "/srv/node/circuit_db"));
    assert!(matches!(&dirs[1], StoreOp::CreateDirAll { dir } if dir == "/srv/node/artifacts"));
}

#[test]
fn blobs_are_written_into_the_circuit_directory() {
    let store = CircuitStore::new("d".to_string());
    let ops = store.store_circuit_artifacts("00ff", "a.bin", b"A", "p.key", b"PK", "v.key", b"");
    assert_eq!(ops.len(), 4);
    assert!(matches!(&ops[0], StoreOp::CreateDirAll { dir } if dir == "d/artifacts/00ff"));
    assert!(matches!(&ops[1], StoreOp::WriteFile { path, data }
        if path == "d/artifacts/00ff/a.bin" && data == b"A"));
    assert!(matches!(&ops[2], StoreOp::WriteFile { path, data }
        if path == "d/artifacts/00ff/p.key" && data == b"PK"));
    assert!(matches!(&ops[3], StoreOp::WriteFile { path, data }
        if path == "d/artifacts/00ff/v.key" && data.is_empty()));
}

#[test]
fn metadata_is_inserted_then_flushed() {
    let store = CircuitStore::new("d".to_string());
    let id = [0x5au8; 32];
    let ops = store.store_circuit_info(&"5a".repeat(32), &info(id), true).unwrap();
    assert_eq!(ops.len(), 2);
    match &ops[0] {
        StoreOp::InsertInfo { key, info: stored } => {
            assert_eq!(key, &"5a".repeat(32));
            assert_eq!(stored.id, id);
            assert_eq!(stored.name, "c");
            assert_eq!(stored.circuit_type, CircuitType::Noir);
            assert_eq!(stored.proving_backend, ProvingBackend::UltraHonk);
            assert_eq!(stored.artifact_path, "circuit_artifact.acir");
            assert_eq!(stored.proving_key_path, "proving.key");
            assert_eq!(stored.verification_key_path, "verification.key");
            assert_eq!(stored.verifier_address, None);
        }
        other => panic!("unexpected: {:?}", other),
    }
    assert!(matches!(&ops[1], StoreOp::Flush));
}

#[test]
fn metadata_under_a_foreign_key_is_an_internal_error() {
    let store = CircuitStore::new("d".to_string());
    for key in ["", "5a", &"5A".repeat(32), &"5b".repeat(32)] {
        for blobs_present in [true, false] {
            match store.store_circuit_info(key, &info([0x5au8; 32]), blobs_present) {
                Err(Error::Internal(text)) => {
                    assert_eq!(text, "Circuit ID mismatch during storage")
                }
                other => panic!("unexpected: {:?}", other),
            }
        }
    }
}

#[test]
fn metadata_without_its_blobs_is_a_state_error() {
    let store = CircuitStore::new("d".to_string());
    match store.store_circuit_info(&"5a".repeat(32), &info([0x5au8; 32]), false) {
        Err(Error::StateError(text)) => assert_eq!(text, "Circuit blobs are missing"),
        other => panic!("unexpected: {:?}", other),
    }
}

#[test]
fn put_writes_the_blobs_before_the_row() {
    let store = CircuitStore::new("d".to_string());
    let id = [0x01u8; 32];
    let ops = store.put(&info(id), b"A", b"PK", b"VK");
    let dir = format!("d/artifacts/{}", "01".repeat(32));
    assert_eq!(ops.len(), 6);
    assert!(matches!(&ops[0], StoreOp::CreateDirAll { dir: d } if *d == dir));
    assert!(matches!(&ops[1], StoreOp::WriteFile { path, data }
        if *path == format!("{}/circuit_artifact.acir", dir) && data == b"A"));
    assert!(matches!(&ops[2], StoreOp::WriteFile { path, data }
        if *path == format!("{}/proving.key", dir) && data == b"PK"));
    assert!(matches!(&ops[3], StoreOp::WriteFile { path, data }
        if *path == format!("{}/verification.key", dir) && data == b"VK"));
    assert!(matches!(&ops[4], StoreOp::InsertInfo { key, info }
        if *key == "01".repeat(32) && info.id == id));
    assert!(matches!(&ops[5], StoreOp::Flush));
}

#[test]
fn blobs_are_found_through_the_metadata() {
    let store = CircuitStore::new("d".to_string());
    let i = info([0x01u8; 32]);
    let dir = format!("d/artifacts/{}", "01".repeat(32));
    assert_eq!(store.artifact_file(&i), format!("{}/circuit_artifact.acir", dir));
    assert_eq!(store.proving_key_file(&i), format!("{}/proving.key", dir));
    assert_eq!(store.verification_key_file(&i), format!("{}/verification.key", dir));
}

#[test]
fn removal_takes_the_directory_then_flushes() {
    let store = CircuitStore::new("d".to_string());
    let id = [0x01u8; 32];
    let (removed, ops) = store.remove_circuit(&id, Some(info(id)), true);
    assert_eq!(removed.unwrap().id, id);
    assert_eq!(ops.len(), 2);
    assert!(matches!(&ops[0], StoreOp::RemoveDirAll { dir }
        if *dir == format!("d/artifacts/{}", "01".repeat(32))));
    assert!(matches!(&ops[1], StoreOp::Flush));
    let (removed, ops) = store.remove_circuit(&id, Some(info(id)), false);
    assert!(removed.is_some());
    assert_eq!(ops.len(), 1);
    assert!(matches!(&ops[0], StoreOp::Flush));
    let (removed, ops) = store.remove_circuit(&id, None, true);
    assert!(removed.is_none());
    assert!(ops.is_empty());
}

#[test]
fn copy_of_metadata_equals_its_source() {
    let source = CircuitInfo { verifier_address: Some([9u8; 20]), ..info([3u8; 32]) };
    let copy = copy_info(&source);
    assert_eq!(copy.id, source.id);
    assert_eq!(copy.name, source.name);
    assert_eq!(copy.circuit_type, source.circuit_type);
    assert_eq!(copy.proving_backend, source.proving_backend);
    assert_eq!(copy.artifact_path, source.artifact_path);
    assert_eq!(copy.proving_key_path, source.proving_key_path);
    assert_eq!(copy.verification_key_path, source.verification_key_path);
    assert_eq!(copy.verifier_address, source.verifier_address);
}

#[test]
fn errors_describe_themselves() {
    let cases = [
        (Error::IoError("x".to_string()), "IO Error: x"),
        (Error::BlueprintError("x".to_string()), "Blueprint Error: x"),
        (Error::ConfigError("x".to_string()), "Configuration Error: x"),
        (Error::MissingConfiguration("x".to_string()), "Missing Configuration: x"),
        (Error::StateError("x".to_string()), "State Error (Database/Storage): x"),
        (Error::BincodeError("x".to_string()), "Serialization/Deserialization Error (bincode): x"),
        (Error::SerdeJsonError("x".to_string()), "Serialization/Deserialization Error (serde_json): x"),
        (Error::NetworkError("x".to_string()), "Networking Error: x"),
        (Error::InvalidInput("x".to_string()), "Invalid Input: x"),
        (Error::ReqwestError("x".to_string()), "HTTP Request Error: x"),
        (Error::UrlParseError("x".to_string()), "Invalid URL: x"),
        (Error::IncompatibleBackend("x".to_string()), "Incompatible Circuit Type/Proving Backend: x"),
        (Error::MpcProtocolError("x".to_string()), "MPC Protocol Error: x"),
        (Error::InvalidDnsName("x".to_string()), "Invalid DNS Name Format: x"),
        (Error::ExchangeRoundBasedError("x".to_string()), "Round-based Protocol Error: x"),
        (Error::Internal("".to_string()), "Internal Error: "),
    ];
    for (error, text) in cases {
        assert_eq!(error.describe(), text);
    }
}

#[test]
fn commitment_mismatch_lists_the_blames() {
    let one = Blame { guilty_party: 2, commitment_msg: 5, reveal_msg: 9 };
    let two = Blame { guilty_party: 65535, commitment_msg: 0, reveal_msg: u64::MAX };
    assert_eq!(
        Error::CommitmentMismatch { guilty_parties: vec![one] }.describe(),
        "Commitment Mismatch - Cheating Detected: [Blame { guilty_party: 2, commitment_msg: 5, reveal_msg: 9 }]"
    );
    assert_eq!(
        Error::CommitmentMismatch { guilty_parties: vec![one, two] }.describe(),
        format!("Commitment Mismatch - Cheating Detected: {:?}", vec![one, two])
    );
    assert_eq!(
        Error::CommitmentMismatch { guilty_parties: Vec::new() }.describe(),
        "Commitment Mismatch - Cheating Detected: []"
    );
    let mut text = "<".to_string();
    push_blame(&mut text, &two);
    assert_eq!(text, format!("<{:?}", two));
    let mut text = String::new();
    push_blames(&mut text, &vec![one, two, one]);
    assert_eq!(text, format!("{:?}, {:?}, {:?}", one, two, one));
}

fn context(
    data_dir: Option<&str>,
    listen: ListenSetting,
    key: Option<&str>,
    cert: Option<&str>,
) -> Result<CosnarksContext<u8>, Error> {
    CosnarksContext::new(
        data_dir.map(|s| s.to_string()),
        listen,
        key.map(|s| s.to_string()),
        cert.map(|s| s.to_string()),
        b"me".to_vec(),
    )
}

#[test]
fn context_needs_a_data_directory_and_a_listen_address() {
    let listen = || ListenSetting::Address("127.0.0.1:9001".to_string());
    assert!(matches!(context(None, listen(), None, None), Err(Error::MissingConfiguration(_))));
    assert!(matches!(
        context(None, ListenSetting::Invalid, None, None),
        Err(Error::MissingConfiguration(_))
    ));
    assert!(matches!(
        context(Some("d"), ListenSetting::Unset, None, None),
        Err(Error::MissingConfiguration(_))
    ));
    assert!(matches!(
        context(Some("d"), ListenSetting::Invalid, None, None),
        Err(Error::InvalidInput(_))
    ));
    assert!(context(Some("d"), listen(), None, None).is_ok());
}

#[test]
fn context_roots_store_and_manager_at_the_data_directory() {
    let listen = ListenSetting::Address("127.0.0.1:9001".to_string());
    let mut ctx = context(Some("d"), listen, None, Some("mpc_certs/test_cert.der")).ok().unwrap();
    assert_eq!(ctx.data_dir(), Some("d".to_string()));
    assert_eq!(ctx.circuit_store().get_artifacts_base_path(), "d/artifacts");
    let keys = vec![b"me".to_vec(), b"you".to_vec()];
    let plan = match ctx.mpc_network_manager().establish_mpc_session("s", &keys) {
        Ok(Establishment::Exchange(plan)) => plan,
        other => panic!("unexpected: {:?}", other),
    };
    assert_eq!(plan.local_party_index, 0);
    assert_eq!(plan.local_reveal.dns_name, "127.0.0.1:9001");
    assert_eq!(plan.local_reveal.cert_path, "d/mpc_certs/test_cert.der");
    let table: std::collections::HashMap<u16, NetworkPartyConfig> = (0..2u16)
        .map(|j| {
            let entry = NetworkPartyConfig {
                id: j as usize,
                dns_name: Address { hostname: "h".to_string(), port: j },
                cert_path: "c.der".to_string(),
            };
            (j, entry)
        })
        .collect();
    let config = ctx.mpc_network_manager().exchange_finished(&plan, Ok(table)).unwrap();
    assert_eq!(config.key_path, "d/mpc_certs/mpc_key.der");
    assert_eq!(config.parties.len(), 2);
    let handle = ctx.handshake_finished("s", Ok(7)).unwrap();
    match ctx.mpc_network_manager().establish_mpc_session("s", &keys) {
        Ok(Establishment::Cached(cached)) => assert!(std::sync::Arc::ptr_eq(&handle, &cached)),
        other => panic!("unexpected: {:?}", other),
    }
}
