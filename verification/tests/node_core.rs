use e_sequencer_node::bootstrap::{
    address_text, generate_p2p_secrets, keystore_path, node_dir, node_multiaddr, node_port,
    plan_bootstrap, validator_report, NodeFiles, ValidatorKeyMaterial,
};
use e_sequencer_node::config::{
    default_data_dir, default_genesis_path, default_num_validators, default_p2p_port,
    dev_keystore_password, resolve_key_sources, select_mode, vrf_key_path, KeySourceError,
    PasswordSource, RunMode, VrfKeySource,
};
use e_sequencer_node::hex_codec::HexError;
use e_sequencer_node::identity::{
    p2p_key_path, resolve_p2p_identity, P2pKeyError, P2pKeyOrigin,
};
use e_sequencer_node::keys::{decode_keystore_public_key, parse_vrf_secret, KeyLoadError};
use e_sequencer_node::node::{batch_hash_prefix, on_node_event, plan_startup, NodeEvent, P2pExit};
use e_sequencer_node::text::decimal_string;

fn libp2p_peer_id(secret: &[u8]) -> String {
    let mut bytes = secret.to_vec();
    let sk = libp2p::identity::ed25519::SecretKey::try_from_bytes(&mut bytes).unwrap();
    let kp = libp2p::identity::Keypair::from(libp2p::identity::ed25519::Keypair::from(sk));
    libp2p::PeerId::from(kp.public()).to_string()
}

fn hex_encode(bytes: &[u8]) -> String {
    hex::encode(bytes)
}

fn hex_decode(text: &str) -> Result<Vec<u8>, HexError> {
    decode_keystore_public_key(text).map_err(|e| match e {
        KeyLoadError::Hex(h) => h,
        KeyLoadError::InvalidVrfKey => unreachable!(),
    })
}

#[test]
fn hex_encode_is_lower_case_two_digits_per_byte() {
    assert_eq!(address_text(&[0xde, 0xad, 0xbe, 0xef]), "0xdeadbeef");
    assert_eq!(address_text(&[0x00, 0x0f, 0x10, 0xff]), "0x000f10ff");
    assert_eq!(batch_hash_prefix(&[0xAB; 9]), "abababababababab");
}

#[test]
fn hex_decode_accepts_mixed_case() {
    assert_eq!(hex_decode("DeAdbeef"), Ok(vec![0xde, 0xad, 0xbe, 0xef]));
    assert_eq!(hex_decode(""), Ok(vec![]));
}

#[test]
fn hex_decode_refuses_odd_length_first() {
    assert_eq!(hex_decode("abc"), Err(HexError::OddLength));
    assert_eq!(hex_decode("zzz"), Err(HexError::OddLength));
}

#[test]
fn hex_decode_reports_first_bad_character() {
    assert_eq!(hex_decode("zz"), Err(HexError::InvalidHexCharacter { c: 'z', index: 0 }));
    assert_eq!(hex_decode("0g1x"), Err(HexError::InvalidHexCharacter { c: 'g', index: 1 }));
    // a non-ASCII character is refused at its first UTF-8 byte
    assert_eq!(
        hex_decode("\u{e9}"),
        Err(HexError::InvalidHexCharacter { c: '\u{c3}', index: 0 })
    );
}

#[test]
fn hex_round_trip() {
    let bytes: Vec<u8> = (0u8..=255).collect();
    let text = address_text(&bytes);
    assert_eq!(hex_decode(&text[2..]), Ok(bytes));
}

#[test]
fn decimal_formatting() {
    assert_eq!(decimal_string(0), "0");
    assert_eq!(decimal_string(7), "7");
    assert_eq!(decimal_string(10), "10");
    assert_eq!(decimal_string(65535), "65535");
    assert_eq!(decimal_string(u64::MAX), u64::MAX.to_string());
}

#[test]
fn ports_count_up_from_9000() {
    assert_eq!(node_port(0), 9000);
    assert_eq!(node_port(5), 9005);
    assert_eq!(node_port(56535), 65535);
}

#[test]
fn multiaddr_format() {
    assert_eq!(
        node_multiaddr(9001, "12D3KooWabc"),
        "/ip4/127.0.0.1/tcp/9001/p2p/12D3KooWabc"
    );
}

#[test]
fn node_file_paths() {
    let dir = node_dir("./node_data", 3);
    assert_eq!(dir, "./node_data/node-3");
    assert_eq!(keystore_path(&dir), "./node_data/node-3/keystore.json");
    assert_eq!(vrf_key_path(&dir), "./node_data/node-3/vrf_private_key");
    assert_eq!(p2p_key_path(&dir), "./node_data/node-3/p2p_keypair");
    assert_eq!(p2p_key_path("dir/"), "dir/p2p_keypair");
    assert_eq!(p2p_key_path(""), "p2p_keypair");
}

#[test]
fn address_text_has_prefix() {
    assert_eq!(address_text(&[0xab, 0x01]), "0xab01");
    assert_eq!(address_text(&[]), "0x");
}

#[test]
fn peer_id_matches_libp2p() {
    let secret = vec![7u8; 32];
    let expected = libp2p_peer_id(&secret);
    assert_eq!(resolve_p2p_identity(Some(secret)).unwrap().peer_id, expected);
    assert!(expected.starts_with("12D3KooW"));
}

#[test]
fn stored_p2p_key_is_loaded() {
    let secret = vec![9u8; 32];
    let id = resolve_p2p_identity(Some(secret.clone())).unwrap();
    assert_eq!(id.origin, P2pKeyOrigin::Loaded);
    assert_eq!(id.secret, secret);
    assert_eq!(id.peer_id, libp2p_peer_id(&secret));
}

#[test]
fn corrupt_p2p_key_is_refused() {
    match resolve_p2p_identity(Some(vec![1u8; 31])) {
        Err(P2pKeyError::Corrupt(_)) => {}
        other => panic!("expected a corrupt key error, got {:?}", other),
    }
    assert!(resolve_p2p_identity(Some(vec![])).is_err());
    assert!(resolve_p2p_identity(Some(vec![0u8; 64])).is_err());
}

#[test]
fn missing_p2p_key_is_generated_and_reloads() {
    let id = resolve_p2p_identity(None).unwrap();
    assert_eq!(id.origin, P2pKeyOrigin::Generated);
    assert_eq!(id.secret.len(), 32);
    let again = resolve_p2p_identity(Some(id.secret.clone())).unwrap();
    assert_eq!(again.peer_id, id.peer_id);
}

fn vrf_err(text: &str) -> KeyLoadError {
    match parse_vrf_secret(text) {
        Ok(_) => panic!("expected the VRF key to be refused"),
        Err(e) => e,
    }
}

fn schnorrkel_public(secret: &[u8]) -> Vec<u8> {
    schnorrkel::SecretKey::from_bytes(secret).unwrap().to_public().to_bytes().to_vec()
}

fn vrf_bytes(scalar: [u8; 32], nonce: u8) -> Vec<u8> {
    let mut v = scalar.to_vec();
    v.extend(std::iter::repeat(nonce).take(32));
    v
}

const GROUP_ORDER: [u8; 32] = [
    0xed, 0xd3, 0xf5, 0x5c, 0x1a, 0x63, 0x12, 0x58, 0xd6, 0x9c, 0xf7, 0xa2, 0xde, 0xf9, 0xde, 0x14,
    0x00, 0x00, 0x00, 0x00, 0x00, 0x00, 0x00, 0x00, 0x00, 0x00, 0x00, 0x00, 0x00, 0x00, 0x00, 0x10,
];

#[test]
fn vrf_secret_valid_key() {
    let bytes = vrf_bytes([1u8; 32], 5);
    let secret = parse_vrf_secret(&hex_encode(&bytes)).unwrap();
    assert_eq!(secret.bytes, bytes);
    assert_eq!(secret.key.into_secret_key().to_bytes().to_vec(), bytes);
}

#[test]
fn vrf_secret_scalar_bound() {
    let mut below = GROUP_ORDER;
    below[0] -= 1;
    assert!(parse_vrf_secret(&hex_encode(&vrf_bytes(below, 0))).is_ok());
    assert_eq!(vrf_err(&hex_encode(&vrf_bytes(GROUP_ORDER, 0))), KeyLoadError::InvalidVrfKey);
    assert_eq!(vrf_err(&hex_encode(&vrf_bytes([0xff; 32], 0))), KeyLoadError::InvalidVrfKey);
}

#[test]
fn vrf_secret_wrong_length() {
    let err = vrf_err(&hex_encode(&[1u8; 32]));
    assert!(err.is_invalid_vrf_key());
    assert_eq!(vrf_err("abc"), KeyLoadError::Hex(HexError::OddLength));
    assert_eq!(
        vrf_err("xy"),
        KeyLoadError::Hex(HexError::InvalidHexCharacter { c: 'x', index: 0 })
    );
}

#[test]
fn vrf_secret_matches_schnorrkel_generated_key() {
    let kp = schnorrkel::MiniSecretKey::from_bytes(&[3u8; 32])
        .unwrap()
        .expand_to_keypair(schnorrkel::ExpansionMode::Ed25519);
    let bytes = kp.secret.to_bytes();
    let secret = parse_vrf_secret(&hex_encode(&bytes)).unwrap();
    assert_eq!(secret.bytes, bytes.to_vec());
    let key = secret.key.into_secret_key();
    assert_eq!(key.to_bytes(), bytes);
    assert_eq!(key.to_public(), kp.public);
}

#[test]
fn keystore_public_key_decoding() {
    assert_eq!(decode_keystore_public_key("0a0B"), Ok(vec![0x0a, 0x0b]));
    assert_eq!(
        decode_keystore_public_key("0"),
        Err(KeyLoadError::Hex(HexError::OddLength))
    );
}

#[test]
fn defaults_follow_the_readme() {
    assert_eq!(default_num_validators(), 6);
    assert_eq!(default_p2p_port(), 9000);
    assert_eq!(default_genesis_path(), "genesis.json");
    assert_eq!(default_data_dir(), "./node_data");
    assert_eq!(dev_keystore_password(), "dev-password");
}

#[test]
fn run_mode_precedence() {
    assert_eq!(select_mode(true, true), RunMode::PrintPeerId);
    assert_eq!(select_mode(true, false), RunMode::PrintPeerId);
    assert_eq!(select_mode(false, true), RunMode::Bootstrap);
    assert_eq!(select_mode(false, false), RunMode::Node);
}

#[test]
fn key_sources_need_a_keystore() {
    assert_eq!(
        resolve_key_sources(None, Some("aa".to_string()), None, "./d").unwrap_err(),
        KeySourceError::MissingKeystorePath
    );
}

#[test]
fn key_sources_defaults_to_data_dir_vrf_file_and_prompt() {
    let s = resolve_key_sources(Some("ks.json".to_string()), None, None, "./node_data/node-1")
        .unwrap();
    assert_eq!(s.keystore_path, "ks.json");
    assert_eq!(s.vrf, VrfKeySource::File("./node_data/node-1/vrf_private_key".to_string()));
    assert_eq!(s.password, PasswordSource::Prompt);
}

#[test]
fn key_sources_prefer_given_values() {
    let s = resolve_key_sources(
        Some("ks.json".to_string()),
        Some("beef".to_string()),
        Some("pw".to_string()),
        "./d",
    )
    .unwrap();
    assert_eq!(s.vrf, VrfKeySource::Given("beef".to_string()));
    assert_eq!(s.password, PasswordSource::Given("pw".to_string()));
}

#[test]
fn startup_without_bootstrap_peers() {
    let p = plan_startup(&vec![]);
    assert!(p.is_bootstrap_node);
    assert_eq!(p.delay_ms, None);
}

#[test]
fn startup_with_bootstrap_peers_waits() {
    for _ in 0..50 {
        let p = plan_startup(&vec!["/ip4/127.0.0.1/tcp/9000/p2p/x".to_string()]);
        assert!(!p.is_bootstrap_node);
        let d = p.delay_ms.unwrap();
        assert!((500..2000).contains(&d));
    }
}

#[test]
fn node_events() {
    let s = on_node_event(NodeEvent::Interrupted);
    assert!(s.stop_engine && !s.is_error && s.grace_ms == 500);
    let s = on_node_event(NodeEvent::P2pStopped(P2pExit::Clean));
    assert!(!s.stop_engine && !s.is_error);
    assert!(on_node_event(NodeEvent::P2pStopped(P2pExit::Failed)).is_error);
    assert!(on_node_event(NodeEvent::P2pStopped(P2pExit::Panicked)).is_error);
}

#[test]
fn batch_hash_prefix_is_first_eight_bytes() {
    let hash: Vec<u8> = (1u8..=32).collect();
    assert_eq!(batch_hash_prefix(&hash), "0102030405060708");
}

fn material(seed: u8) -> ValidatorKeyMaterial {
    ValidatorKeyMaterial {
        signing_public_key: vec![seed; 4],
        signing_private_key: vec![seed.wrapping_add(3); 2],
        address: vec![seed, seed.wrapping_add(1)],
        vrf_secret_key: vrf_bytes([seed; 32], seed),
    }
}

#[test]
fn p2p_secrets_are_drawn_per_node() {
    let secrets = generate_p2p_secrets(3);
    assert_eq!(secrets.len(), 3);
    assert!(secrets.iter().all(|s| s.len() == 32));
    assert_ne!(secrets[0], secrets[1]);
    assert!(generate_p2p_secrets(0).is_empty());
}

#[test]
fn bootstrap_plan_layout_and_genesis() {
    let validators = vec![material(1), material(2)];
    let secrets = vec![vec![11u8; 32], vec![12u8; 32]];
    let plan = plan_bootstrap(1700000000, "./node_data", &validators, &secrets);
    let g = &plan.genesis;
    assert_eq!(g.genesis_time, 1700000000);
    assert_eq!(g.chain_id, "evice-sequencer-v1");
    assert_eq!(g.sub_committee_size, 2);
    assert_eq!(g.proposer_timeout_ms, 3000);
    assert_eq!(plan.nodes.len(), 2);
    assert_eq!(g.accounts.len(), 2);
    for (i, n) in plan.nodes.iter().enumerate() {
        assert_eq!(n.dir, format!("./node_data/node-{}", i));
        assert_eq!(n.port, 9000 + i as u16);
        assert_eq!(n.p2p_key_path, format!("./node_data/node-{}/p2p_keypair", i));
        assert_eq!(n.keystore_path, format!("./node_data/node-{}/keystore.json", i));
        assert_eq!(n.vrf_key_path, format!("./node_data/node-{}/vrf_private_key", i));
        assert_eq!(n.vrf_key_hex, hex_encode(&validators[i].vrf_secret_key));
        assert_eq!(n.vrf_public_key, schnorrkel_public(&validators[i].vrf_secret_key));
        assert_eq!(n.p2p_secret, secrets[i]);
        assert_eq!(n.peer_id, libp2p_peer_id(&secrets[i]));
        // the node reloads the same identity from the key file
        let reloaded = resolve_p2p_identity(Some(n.p2p_secret.clone())).unwrap();
        assert_eq!(reloaded.peer_id, n.peer_id);
        let a = &g.accounts[i];
        assert_eq!(a.address, address_text(&validators[i].address));
        assert_eq!(a.public_key, hex_encode(&validators[i].signing_public_key));
        assert_eq!(a.vrf_public_key, hex_encode(&n.vrf_public_key));
        assert_eq!(
            a.network_identity,
            format!("/ip4/127.0.0.1/tcp/{}/p2p/{}", 9000 + i, n.peer_id)
        );
        // the written VRF key reads back as the same secret, with the listed public key
        let read = parse_vrf_secret(&n.vrf_key_hex).unwrap();
        assert_eq!(read.bytes, validators[i].vrf_secret_key);
        assert_eq!(
            hex_encode(&read.key.into_secret_key().to_public().to_bytes()),
            a.vrf_public_key
        );
    }
    assert_ne!(plan.nodes[0].peer_id, plan.nodes[1].peer_id);
}

#[test]
fn bootstrap_plan_same_address_keeps_last() {
    let mut second = material(5);
    second.address = material(1).address;
    let validators = vec![material(1), second];
    let plan = plan_bootstrap(0, "d", &validators, &generate_p2p_secrets(2));
    assert_eq!(plan.genesis.accounts.len(), 1);
    assert_eq!(plan.genesis.accounts[0].public_key, hex_encode(&validators[1].signing_public_key));
    assert!(plan.genesis.accounts[0].network_identity.contains("/tcp/9001/"));
    assert_eq!(plan.nodes.len(), 2);
}

#[test]
fn bootstrap_plan_empty() {
    let plan = plan_bootstrap(0, "d", &vec![], &vec![]);
    assert!(plan.nodes.is_empty());
    assert!(plan.genesis.accounts.is_empty());
    assert_eq!(plan.genesis.sub_committee_size, 0);
}

#[test]
fn validator_report_lines() {
    let v = material(0x10);
    let node = NodeFiles {
        dir: "d/node-2".to_string(),
        port: 9002,
        p2p_key_path: "d/node-2/p2p_keypair".to_string(),
        p2p_secret: vec![0u8; 32],
        peer_id: "12D3KooWxyz".to_string(),
        keystore_path: "d/node-2/keystore.json".to_string(),
        vrf_key_path: "d/node-2/vrf_private_key".to_string(),
        vrf_key_hex: String::new(),
        vrf_public_key: vec![0x12; 3],
    };
    let lines = validator_report(2, &v, &node);
    assert_eq!(
        lines,
        vec![
            "\n─── Validator 3 ───".to_string(),
            "  Address:         0x1011".to_string(),
            "  Signing PubKey:  0x10101010".to_string(),
            "  Signing PrivKey: 0x1313".to_string(),
            "  VRF PubKey:      0x121212".to_string(),
            format!("  VRF PrivKey:     0x{}", hex_encode(&v.vrf_secret_key)),
            "  P2P PeerId:      12D3KooWxyz".to_string(),
            "  P2P Port:        9002".to_string(),
        ]
    );
}
