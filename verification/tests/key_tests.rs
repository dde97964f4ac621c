use keyring::key::derivation_path;
use keyring::{ClaimValue, Claims, Key, KeyringError};

const MNEMONIC: &str = "abandon abandon abandon abandon abandon abandon abandon abandon abandon abandon abandon abandon abandon abandon abandon abandon abandon abandon abandon abandon abandon abandon abandon art";

fn one_scalar() -> Vec<u8> {
    let mut sk = vec![0u8; 32];
    sk[31] = 1;
    sk
}

#[test]
fn derivation_path_formula() {
    assert_eq!(derivation_path(118).as_str(), "m/44'/118'/0'/0/0");
    assert_eq!(derivation_path(0).as_str(), "m/44'/0'/0'/0/0");
    assert_eq!(derivation_path(4294967295).as_str(), "m/44'/4294967295'/0'/0/0");
}

#[test]
fn derivation_is_deterministic() {
    let k1 = Key::from_mnemonic("alice", MNEMONIC, 118).unwrap();
    let k2 = Key::from_mnemonic("alice", MNEMONIC, 118).unwrap();
    assert_eq!(k1.privkey(), k2.privkey());
    assert_eq!(k1.pubkey(), k2.pubkey());
    assert_eq!(k1.name().as_str(), "alice");
}

#[test]
fn derivation_depends_on_coin_type() {
    let k1 = Key::from_mnemonic("alice", MNEMONIC, 118).unwrap();
    let k2 = Key::from_mnemonic("alice", MNEMONIC, 0).unwrap();
    assert_ne!(k1.privkey(), k2.privkey());
}

#[test]
fn invalid_mnemonic_is_rejected() {
    let r = Key::from_mnemonic("alice", "this is not a valid phrase", 118);
    assert!(matches!(r, Err(KeyringError::Bip32)));
}

#[test]
fn raw_bytes_accept_valid_scalar() {
    let k = Key::from_privkey_bytes("alice", &one_scalar()).unwrap();
    assert_eq!(k.name().as_str(), "alice");
    assert_eq!(k.privkey().as_slice(), one_scalar().as_slice());
}

#[test]
fn raw_bytes_reject_zero_scalar() {
    let r = Key::from_privkey_bytes("alice", &[0u8; 32]);
    assert!(matches!(r, Err(KeyringError::Ecdsa)));
}

#[test]
fn raw_bytes_reject_wrong_length() {
    let r = Key::from_privkey_bytes("alice", &[1u8; 16]);
    assert!(matches!(r, Err(KeyringError::Ecdsa)));
}

#[test]
fn pubkey_of_scalar_one_is_the_generator() {
    let k = Key::from_privkey_bytes("g", &one_scalar()).unwrap();
    let expected =
        hex::decode("0279be667ef9dcbbac55a06295ce870b07029bfcdb2dce28d959f2815b16f81798")
            .unwrap();
    assert_eq!(k.pubkey(), expected);
}

#[test]
fn signing_is_deterministic() {
    let k = Key::from_privkey_bytes("alice", &one_scalar()).unwrap();
    let s1 = k.sign(b"a message");
    let s2 = k.sign(b"a message");
    let s3 = k.sign(b"another message");
    assert_eq!(s1, s2);
    assert_eq!(s1.len(), 64);
    assert_ne!(s1, s3);
}

#[test]
fn to_claims_writes_name_and_hex_scalar() {
    let k = Key::from_privkey_bytes("alice", &one_scalar()).unwrap();
    let c = k.to_claims();
    let name = match c.claim(&"name".to_string()) {
        Some(ClaimValue::Text(s)) => s.clone(),
        _ => panic!("missing name claim"),
    };
    let sk = match c.claim(&"sk".to_string()) {
        Some(ClaimValue::Text(s)) => s.clone(),
        _ => panic!("missing sk claim"),
    };
    assert_eq!(name.as_str(), "alice");
    assert_eq!(
        sk.as_str(),
        "0000000000000000000000000000000000000000000000000000000000000001"
    );
}

#[test]
fn claims_round_trip_rebuilds_the_key() {
    let k = Key::from_mnemonic("alice", MNEMONIC, 118).unwrap();
    let c = k.to_claims();
    let k2 = Key::from_claims(&c).unwrap();
    assert_eq!(k2.name().as_str(), "alice");
    assert_eq!(k.privkey(), k2.privkey());
    assert_eq!(k.pubkey(), k2.pubkey());
}

#[test]
fn from_claims_accepts_upper_case_hex() {
    let c = Claims {
        entries: vec![
            ("name".to_string(), ClaimValue::Text("alice".to_string())),
            (
                "sk".to_string(),
                ClaimValue::Text(
                    "0000000000000000000000000000000000000000000000000000000000000001"
                        .to_uppercase(),
                ),
            ),
        ],
    };
    let k = Key::from_claims(&c).unwrap();
    assert_eq!(k.privkey().as_slice(), one_scalar().as_slice());
}

#[test]
fn from_claims_missing_name() {
    let c = Claims { entries: vec![("sk".to_string(), ClaimValue::Text("01".to_string()))] };
    assert!(matches!(Key::from_claims(&c), Err(KeyringError::MalformedPayload { .. })));
}

#[test]
fn from_claims_name_of_wrong_type() {
    let c = Claims {
        entries: vec![
            ("name".to_string(), ClaimValue::Other),
            ("sk".to_string(), ClaimValue::Text("01".to_string())),
        ],
    };
    assert!(matches!(Key::from_claims(&c), Err(KeyringError::MalformedPayload { .. })));
}

#[test]
fn from_claims_missing_sk() {
    let c = Claims {
        entries: vec![("name".to_string(), ClaimValue::Text("alice".to_string()))],
    };
    assert!(matches!(Key::from_claims(&c), Err(KeyringError::MalformedPayload { .. })));
}

#[test]
fn from_claims_bad_hex() {
    let c = Claims {
        entries: vec![
            ("name".to_string(), ClaimValue::Text("alice".to_string())),
            ("sk".to_string(), ClaimValue::Text("zz".to_string())),
        ],
    };
    assert!(matches!(Key::from_claims(&c), Err(KeyringError::FromHex)));
}

#[test]
fn from_claims_odd_length_hex() {
    let c = Claims {
        entries: vec![
            ("name".to_string(), ClaimValue::Text("alice".to_string())),
            ("sk".to_string(), ClaimValue::Text("012".to_string())),
        ],
    };
    assert!(matches!(Key::from_claims(&c), Err(KeyringError::FromHex)));
}

#[test]
fn from_claims_invalid_scalar() {
    let c = Claims {
        entries: vec![
            ("name".to_string(), ClaimValue::Text("alice".to_string())),
            (
                "sk".to_string(),
                ClaimValue::Text(
                    "0000000000000000000000000000000000000000000000000000000000000000"
                        .to_string(),
                ),
            ),
        ],
    };
    assert!(matches!(Key::from_claims(&c), Err(KeyringError::Ecdsa)));
}

#[test]
fn later_claim_entries_shadow_earlier_ones() {
    let c = Claims {
        entries: vec![
            ("name".to_string(), ClaimValue::Text("old".to_string())),
            ("name".to_string(), ClaimValue::Text("new".to_string())),
        ],
    };
    match c.claim(&"name".to_string()) {
        Some(ClaimValue::Text(s)) => assert_eq!(s.as_str(), "new"),
        _ => panic!("missing name claim"),
    }
}
