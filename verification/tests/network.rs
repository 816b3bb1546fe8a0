use cosnarks_zksaas_blueprint_lib::error::Error;
use cosnarks_zksaas_blueprint_lib::mesh::{Address, NetworkPartyConfig};
use cosnarks_zksaas_blueprint_lib::network::{
    Establishment, MpcNetworkManager, SessionCache, SessionPlan, HANDSHAKE_TIMEOUT_SECS,
};
use cosnarks_zksaas_blueprint_lib::p2p::{Blame, RevealMsg};
use std::collections::HashMap;
use std::sync::Arc;

fn manager(local: &[u8]) -> MpcNetworkManager<String> {
    MpcNetworkManager::new(
        local.to_vec(),
        "127.0.0.1:9001".to_string(),
        "data/mpc_certs/test_key.der".to_string(),
        "data/mpc_certs/test_cert.der".to_string(),
    )
}

fn expect_plan(answer: Result<Establishment<String>, Error>) -> SessionPlan {
    match answer {
        Ok(Establishment::Exchange(plan)) => plan,
        other => panic!("expected a plan, got {:?}", other),
    }
}

fn entry(id: usize) -> NetworkPartyConfig {
    NetworkPartyConfig {
        id,
        dns_name: Address { hostname: format!("h{}", id), port: 9000 + id as u16 },
        cert_path: format!("c{}.der", id),
    }
}

#[test]
fn session_of_two_participants_is_planned() {
    let m = manager(b"bb");
    let plan = expect_plan(m.establish_mpc_session("s", &vec![b"aa".to_vec(), b"bb".to_vec()]));
    assert_eq!(plan.n, 2);
    assert_eq!(plan.local_party_index, 1);
    assert_eq!(
        plan.local_reveal,
        RevealMsg {
            dns_name: "127.0.0.1:9001".to_string(),
            cert_path: "data/mpc_certs/test_cert.der".to_string(),
        }
    );
    assert_eq!(plan.party_mapping.len(), 2);
    assert_eq!(plan.party_mapping.get(&0).unwrap(), &b"aa".to_vec());
    assert_eq!(plan.party_mapping.get(&1).unwrap(), &b"bb".to_vec());
}

#[test]
fn session_of_one_participant_is_a_configuration_error() {
    let m = manager(b"aa");
    assert!(matches!(
        m.establish_mpc_session("s", &vec![b"aa".to_vec()]),
        Err(Error::ConfigError(_))
    ));
    assert!(matches!(m.establish_mpc_session("s", &Vec::new()), Err(Error::ConfigError(_))));
}

#[test]
fn session_without_the_local_node_is_a_configuration_error() {
    let m = manager(b"zz");
    match m.establish_mpc_session("s", &vec![b"aa".to_vec(), b"bb".to_vec(), b"z".to_vec()]) {
        Err(Error::ConfigError(text)) => {
            assert_eq!(text, "Local node not found in participant list")
        }
        other => panic!("unexpected: {:?}", other),
    }
}

#[test]
fn local_party_index_is_the_first_position_of_the_local_key() {
    let m = manager(b"k");
    let keys = vec![b"a".to_vec(), b"k".to_vec(), b"c".to_vec(), b"k".to_vec()];
    let plan = expect_plan(m.establish_mpc_session("s", &keys));
    assert_eq!(plan.local_party_index, 1);
    assert_eq!(plan.n, 4);
    for (j, key) in keys.iter().enumerate() {
        assert_eq!(plan.party_mapping.get(&(j as u16)).unwrap(), key);
    }
}

#[test]
fn established_session_is_answered_from_the_cache() {
    let mut m = manager(b"bb");
    let keys = vec![b"aa".to_vec(), b"bb".to_vec()];
    let _ = expect_plan(m.establish_mpc_session("s", &keys));
    let first = m.handshake_finished("s", Ok("mesh".to_string())).unwrap();
    assert_eq!(*first, "mesh");
    for participants in [keys.clone(), Vec::new()] {
        match m.establish_mpc_session("s", &participants) {
            Ok(Establishment::Cached(second)) => assert!(Arc::ptr_eq(&first, &second)),
            other => panic!("expected the cached handle, got {:?}", other),
        }
    }
    let _ = expect_plan(m.establish_mpc_session("t", &keys));
}

#[test]
fn cached_handle_is_never_replaced() {
    let mut m = manager(b"bb");
    let keys = vec![b"aa".to_vec(), b"bb".to_vec()];
    let first = m.handshake_finished("s", Ok("first".to_string())).unwrap();
    let second = m.handshake_finished("s", Ok("second".to_string())).unwrap();
    assert!(Arc::ptr_eq(&first, &second));
    assert_eq!(*second, "first");
    let _ = m.handshake_finished("s", Err("late failure".to_string()));
    match m.establish_mpc_session("s", &keys) {
        Ok(Establishment::Cached(cached)) => assert!(Arc::ptr_eq(&first, &cached)),
        other => panic!("expected the cached handle, got {:?}", other),
    }
}

#[test]
fn failed_handshake_is_not_cached() {
    let mut m = manager(b"bb");
    let keys = vec![b"aa".to_vec(), b"bb".to_vec()];
    match m.handshake_finished("s", Err("connection refused".to_string())) {
        Err(Error::NetworkError(text)) => {
            assert_eq!(text, "Failed to establish MPC network: connection refused")
        }
        other => panic!("unexpected: {:?}", other),
    }
    let _ = expect_plan(m.establish_mpc_session("s", &keys));
}

#[test]
fn mesh_lists_the_parties_by_index() {
    let m = manager(b"bb");
    let plan = expect_plan(m.establish_mpc_session(
        "s",
        &vec![b"aa".to_vec(), b"bb".to_vec(), b"cc".to_vec()],
    ));
    let mut table = HashMap::new();
    table.insert(2u16, entry(2));
    table.insert(0u16, entry(0));
    table.insert(1u16, entry(1));
    let config = m.exchange_finished(&plan, Ok(table)).unwrap();
    assert_eq!(config.my_id, 1);
    assert_eq!(config.bind_addr, "127.0.0.1:9001");
    assert_eq!(config.key_path, "data/mpc_certs/test_key.der");
    assert_eq!(config.parties, vec![entry(0), entry(1), entry(2)]);
    assert_eq!(config.timeout_secs, Some(60));
    assert_eq!(HANDSHAKE_TIMEOUT_SECS, 60);
}

#[test]
fn mesh_needs_an_entry_for_every_party_and_no_other() {
    let m = manager(b"aa");
    let plan = expect_plan(m.establish_mpc_session(
        "s",
        &vec![b"aa".to_vec(), b"bb".to_vec(), b"cc".to_vec()],
    ));
    let tables: Vec<Vec<u16>> =
        vec![vec![], vec![0, 2], vec![0, 1], vec![0, 1, 3], vec![0, 1, 2, 3], vec![1, 2, 3]];
    for keys in tables {
        let table: HashMap<u16, NetworkPartyConfig> =
            keys.iter().map(|j| (*j, entry(*j as usize))).collect();
        match m.exchange_finished(&plan, Ok(table)) {
            Err(Error::MpcProtocolError(text)) => {
                assert_eq!(text, "Config exchange did not yield exactly one entry per party")
            }
            other => panic!("unexpected for {:?}: {:?}", keys, other),
        }
    }
}

#[test]
fn commitment_mismatch_reaches_the_job_with_its_blames() {
    let m = manager(b"aa");
    let plan = expect_plan(m.establish_mpc_session("s", &vec![b"aa".to_vec(), b"bb".to_vec()]));
    let blames = vec![
        Blame { guilty_party: 1, commitment_msg: 5, reveal_msg: 9 },
        Blame { guilty_party: 3, commitment_msg: 6, reveal_msg: 10 },
    ];
    match m.exchange_finished(&plan, Err(Error::CommitmentMismatch { guilty_parties: blames.clone() })) {
        Err(Error::CommitmentMismatch { guilty_parties }) => assert_eq!(guilty_parties, blames),
        other => panic!("unexpected: {:?}", other),
    }
}

#[test]
fn other_failures_of_the_exchange_are_protocol_errors() {
    let m = manager(b"aa");
    let plan = expect_plan(m.establish_mpc_session("s", &vec![b"aa".to_vec(), b"bb".to_vec()]));
    match m.exchange_finished(
        &plan,
        Err(Error::InvalidDnsName("Invalid port number: invalid digit found in string".to_string())),
    ) {
        Err(Error::MpcProtocolError(text)) => assert_eq!(
            text,
            "Config exchange failed: Invalid DNS Name Format: Invalid port number: invalid digit found in string"
        ),
        other => panic!("unexpected: {:?}", other),
    }
    match m.exchange_finished(&plan, Err(Error::ExchangeRoundBasedError("closed".to_string()))) {
        Err(Error::MpcProtocolError(text)) => {
            assert_eq!(text, "Config exchange failed: Round-based Protocol Error: closed")
        }
        other => panic!("unexpected: {:?}", other),
    }
}

#[test]
fn session_cache_keeps_one_handle_per_identifier() {
    let mut cache: SessionCache<u32> = SessionCache::new();
    assert_eq!(cache.len(), 0);
    assert!(cache.get("a").is_none());
    cache.insert("a", Arc::new(1));
    cache.insert("b", Arc::new(2));
    assert_eq!(cache.len(), 2);
    assert_eq!(*cache.get("a").unwrap(), 1);
    assert_eq!(*cache.get("b").unwrap(), 2);
    cache.insert("a", Arc::new(3));
    assert_eq!(cache.len(), 2);
    assert_eq!(*cache.get("a").unwrap(), 3);
    assert!(cache.get("").is_none());
    assert!(cache.get("ab").is_none());
}
