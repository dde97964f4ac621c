use keyring::cipher::{decrypt, encrypt};
use keyring::{ClaimValue, Claims, Key, Keyring, KeyringError};

fn one_scalar() -> Vec<u8> {
    let mut sk = vec![0u8; 32];
    sk[31] = 1;
    sk
}

fn sample_claims() -> Claims {
    Claims {
        entries: vec![
            ("name".to_string(), ClaimValue::Text("alice".to_string())),
            ("sk".to_string(), ClaimValue::Text("0102".to_string())),
        ],
    }
}

fn text_of(c: &Claims, key: &str) -> String {
    match c.claim(&key.to_string()) {
        Some(ClaimValue::Text(s)) => s.clone(),
        _ => panic!("missing claim `{key}`"),
    }
}

/// A directory of key files, simulated in memory for the tests: the store
/// itself only decides; reading and writing files is its caller's part.
struct MemDir {
    files: Vec<(String, Vec<u8>)>,
}

impl MemDir {
    fn new() -> Self {
        MemDir { files: Vec::new() }
    }

    fn read(&self, name: &str) -> Option<&Vec<u8>> {
        self.files.iter().find(|(n, _)| n == name).map(|(_, c)| c)
    }

    fn write(&mut self, name: &str, contents: Vec<u8>) {
        self.files.push((name.to_string(), contents));
    }

    fn remove(&mut self, name: &str) {
        self.files.retain(|(n, _)| n != name);
    }
}

#[test]
fn paths_are_deterministic() {
    let kr = Keyring::new("store".to_string());
    assert_eq!(kr.dir().unwrap().as_str(), "store");
    assert_eq!(kr.filename("alice").as_str(), "store/alice.key");
    assert_eq!(kr.password_hash().as_str(), "store/password_hash");
}

#[test]
fn cipher_round_trip() {
    let token = encrypt("hunter2", &sample_claims()).unwrap();
    let back = decrypt("hunter2", &token).unwrap();
    assert_eq!(text_of(&back, "name").as_str(), "alice");
    assert_eq!(text_of(&back, "sk").as_str(), "0102");
}

#[test]
fn cipher_rejects_wrong_password() {
    let token = encrypt("hunter2", &sample_claims()).unwrap();
    assert!(matches!(decrypt("not-hunter2", &token), Err(KeyringError::Jose)));
}

#[test]
fn cipher_rejects_corrupt_token() {
    assert!(matches!(decrypt("hunter2", b"not a token"), Err(KeyringError::Jose)));
}

#[test]
fn cipher_rejects_empty_password() {
    assert!(matches!(encrypt("", &sample_claims()), Err(KeyringError::Jose)));
}

#[test]
fn initialize_and_unlock() {
    let kr = Keyring::new("store".to_string());
    let record = kr
        .initialize(&"correct-horse".to_string(), &"correct-horse".to_string())
        .unwrap();
    let p = kr.unlock("correct-horse", &record).unwrap();
    assert_eq!(p.as_str(), "correct-horse");
    assert!(matches!(kr.unlock("wrong", &record), Err(KeyringError::IncorrectPassword)));
}

#[test]
fn initialize_rejects_mismatched_confirmation() {
    let kr = Keyring::new("store".to_string());
    let r = kr.initialize(&"one".to_string(), &"two".to_string());
    assert!(matches!(r, Err(KeyringError::MismatchedPassword)));
}

#[test]
fn unlock_rejects_unusable_record() {
    let kr = Keyring::new("store".to_string());
    assert!(matches!(kr.unlock("pw", "not a bcrypt record"), Err(KeyringError::Bcrypt)));
}

#[test]
fn create_twice_fails_and_modifies_nothing() {
    let kr = Keyring::new("store".to_string());
    let mut dir = MemDir::new();
    let key = Key::from_privkey_bytes("alice", &one_scalar()).unwrap();

    let token = kr.set(&key, dir.read("alice.key").is_some(), "pw").unwrap();
    dir.write("alice.key", token.clone());

    let r = kr.set(&key, dir.read("alice.key").is_some(), "pw");
    match r {
        Err(KeyringError::KeyAlreadyExists { name }) => assert_eq!(name.as_str(), "alice"),
        _ => panic!("expected KeyAlreadyExists"),
    }
    assert_eq!(dir.read("alice.key").unwrap(), &token);
    assert_eq!(dir.files.len(), 1);
}

#[test]
fn read_and_delete_unknown_name_fail_alike() {
    let kr = Keyring::new("store".to_string());
    let dir = MemDir::new();
    match kr.get("alice", dir.read("alice.key"), "pw") {
        Err(KeyringError::KeyNotFound { name }) => assert_eq!(name.as_str(), "alice"),
        _ => panic!("expected KeyNotFound"),
    }
    match kr.delete("alice", dir.read("alice.key").is_some()) {
        Err(KeyringError::KeyNotFound { name }) => assert_eq!(name.as_str(), "alice"),
        _ => panic!("expected KeyNotFound"),
    }
}

#[test]
fn create_then_read_returns_the_key() {
    let kr = Keyring::new("store".to_string());
    let mut dir = MemDir::new();
    let key = Key::from_privkey_bytes("alice", &one_scalar()).unwrap();
    let token = kr.set(&key, false, "pw").unwrap();
    dir.write("alice.key", token);

    let back = kr.get("alice", dir.read("alice.key"), "pw").unwrap();
    assert_eq!(back.name().as_str(), "alice");
    assert_eq!(back.pubkey(), key.pubkey());
}

#[test]
fn read_with_wrong_password_fails() {
    let kr = Keyring::new("store".to_string());
    let key = Key::from_privkey_bytes("alice", &one_scalar()).unwrap();
    let token = kr.set(&key, false, "pw").unwrap();
    assert!(matches!(kr.get("alice", Some(&token), "other"), Err(KeyringError::Jose)));
}

#[test]
fn delete_then_read_fails_with_not_found() {
    let kr = Keyring::new("store".to_string());
    let mut dir = MemDir::new();
    let key = Key::from_privkey_bytes("alice", &one_scalar()).unwrap();
    let token = kr.set(&key, false, "pw").unwrap();
    dir.write("alice.key", token);

    kr.delete("alice", dir.read("alice.key").is_some()).unwrap();
    dir.remove("alice.key");

    assert!(matches!(
        kr.get("alice", dir.read("alice.key"), "pw"),
        Err(KeyringError::KeyNotFound { .. })
    ));
}

#[test]
fn list_skips_a_corrupt_file() {
    let kr = Keyring::new("store".to_string());
    let alice = Key::from_privkey_bytes("alice", &one_scalar()).unwrap();
    let mut sk2 = vec![0u8; 32];
    sk2[31] = 2;
    let bob = Key::from_privkey_bytes("bob", &sk2).unwrap();

    let tokens = vec![
        kr.set(&alice, false, "pw").unwrap(),
        b"corrupt".to_vec(),
        kr.set(&bob, false, "pw").unwrap(),
    ];
    let keys = kr.list(&tokens, "pw");
    assert_eq!(keys.len(), 2);
    assert_eq!(keys[0].name().as_str(), "alice");
    assert_eq!(keys[1].name().as_str(), "bob");
}

#[test]
fn list_with_wrong_password_returns_nothing() {
    let kr = Keyring::new("store".to_string());
    let alice = Key::from_privkey_bytes("alice", &one_scalar()).unwrap();
    let tokens = vec![kr.set(&alice, false, "pw").unwrap()];
    let keys = kr.list(&tokens, "other");
    assert_eq!(keys.len(), 0);
}
