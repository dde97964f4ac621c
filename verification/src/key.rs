//! A named secp256k1 signing key: derivation from a BIP-39 mnemonic or raw
//! bytes, signing, public-key export, and the claims map it is stored as.

use vstd::prelude::*;
use vstd::string::*;

use crate::claims::{all_text, ClaimValue, Claims};
use crate::error::KeyringError;
use crate::hexcodec::{hex_decode, hex_decode_spec, hex_digit, hex_encode, hex_of};

verus! {

/// Whether these bytes are a valid secp256k1 private scalar: 32 bytes
/// holding a nonzero value below the group order. Decided by the curve
/// library alone.
pub uninterp spec fn valid_scalar(bytes: Seq<u8>) -> bool;

/// The SEC1-compressed public key of a private scalar, a function of the
/// scalar alone.
pub uninterp spec fn pubkey_of(sk: Seq<u8>) -> Seq<u8>;

/// The deterministic ECDSA signature of a message under a private scalar,
/// a function of scalar and message alone.
pub uninterp spec fn signature_of(sk: Seq<u8>, msg: Seq<u8>) -> Seq<u8>;

/// The 64-byte BIP-39 seed of a mnemonic phrase (with an empty seed
/// passphrase), or nothing when the phrase is no valid mnemonic. A
/// function of the phrase alone.
pub uninterp spec fn mnemonic_seed(phrase: Seq<char>) -> Option<Seq<u8>>;

/// The private scalar derived from a seed along a derivation path, or
/// nothing when the path does not parse or derivation fails. A function of
/// seed and path alone.
pub uninterp spec fn path_sk(seed: Seq<u8>, path: Seq<char>) -> Option<Seq<u8>>;

/// Relies on k256's `SigningKey::from_bytes`: it accepts exactly the
/// 32-byte encodings of a nonzero scalar below the secp256k1 group order.
#[verifier::external_body]
fn scalar_ok(bytes: &[u8]) -> (r: bool)
    ensures
        r == valid_scalar(bytes@),
        r ==> bytes@.len() == 32,
{
    k256::ecdsa::SigningKey::from_bytes(bytes).is_ok()
}

/// Relies on k256's `SigningKey::verifying_key` and
/// `VerifyingKey::to_bytes`: the public key is computed from the private
/// scalar alone and serialized SEC1-compressed, 33 bytes.
#[verifier::external_body]
fn compute_pubkey(sk: &[u8]) -> (r: Vec<u8>)
    requires
        valid_scalar(sk@),
    ensures
        r@ == pubkey_of(sk@),
        r@.len() == 33,
{
    let key = k256::ecdsa::SigningKey::from_bytes(sk).expect("a valid scalar");
    key.verifying_key().to_bytes().to_vec()
}

/// Relies on k256's `Signer::sign` for `SigningKey`: deterministic ECDSA
/// (RFC 6979) over the SHA-256 hash of the message, serialized as the 64
/// bytes of `r` then `s`.
#[verifier::external_body]
fn compute_signature(sk: &[u8], msg: &[u8]) -> (r: Vec<u8>)
    requires
        valid_scalar(sk@),
    ensures
        r@ == signature_of(sk@, msg@),
        r@.len() == 64,
{
    let key = k256::ecdsa::SigningKey::from_bytes(sk).expect("a valid scalar");
    let sig: k256::ecdsa::Signature = k256::ecdsa::signature::Signer::sign(&key, msg);
    sig.to_vec()
}

/// Relies on bip32's `Mnemonic::new` (English word list, checksum checked)
/// and `Mnemonic::to_seed` with an empty passphrase: the 64-byte seed is a
/// function of the phrase alone.
#[verifier::external_body]
fn phrase_to_seed(phrase: &str) -> (r: Option<Vec<u8>>)
    ensures
        match r {
            Some(s) => mnemonic_seed(phrase@) == Some(s@) && s@.len() == 64,
            None => mnemonic_seed(phrase@) is None,
        },
{
    bip32::Mnemonic::new(phrase, bip32::Language::English)
        .ok()
        .map(|m| m.to_seed("").as_bytes().to_vec())
}

/// Relies on bip32's `DerivationPath` parsing and
/// `XPrv::derive_from_path`: the derived leaf private key is a function of
/// seed and path alone, and is always a valid secp256k1 scalar.
#[verifier::external_body]
fn derive_path_sk(seed: &[u8], path: &str) -> (r: Option<Vec<u8>>)
    ensures
        match r {
            Some(sk) => path_sk(seed@, path@) == Some(sk@) && valid_scalar(sk@),
            None => path_sk(seed@, path@) is None,
        },
{
    let parsed: bip32::DerivationPath = match path.parse() {
        Ok(p) => p,
        Err(_) => return None,
    };
    match bip32::XPrv::derive_from_path(seed, &parsed) {
        Ok(x) => Some(x.private_key().to_bytes().to_vec()),
        Err(_) => None,
    }
}

/// The decimal digits of a number, most significant first.
pub open spec fn dec_spec(n: nat) -> Seq<char>
    decreases n,
{
    if n < 10 {
        seq![hex_digit(n as int)]
    } else {
        dec_spec(n / 10) + seq![hex_digit((n % 10) as int)]
    }
}

/// The BIP-44 derivation path used for every key of the store:
/// `m/44'/{coin_type}'/0'/0/0`.
pub open spec fn path_spec(coin_type: u32) -> Seq<char> {
    "m/44'/"@ + dec_spec(coin_type as nat) + "'/0'/0/0"@
}

/// One decimal digit as a string slice.
fn dec_digit(d: u32) -> (r: &'static str)
    requires
        d < 10,
    ensures
        r@ == seq![hex_digit(d as int)],
{
    proof {
        reveal_strlit("0");
        reveal_strlit("1");
        reveal_strlit("2");
        reveal_strlit("3");
        reveal_strlit("4");
        reveal_strlit("5");
        reveal_strlit("6");
        reveal_strlit("7");
        reveal_strlit("8");
        reveal_strlit("9");
    }
    let r: &'static str = if d == 0 { "0" }
    else if d == 1 { "1" }
    else if d == 2 { "2" }
    else if d == 3 { "3" }
    else if d == 4 { "4" }
    else if d == 5 { "5" }
    else if d == 6 { "6" }
    else if d == 7 { "7" }
    else if d == 8 { "8" }
    else { "9" };
    proof {
        assert(r@ =~= seq![hex_digit(d as int)]);
    }
    r
}

/// The decimal representation of a number.
fn dec_string(n: u32) -> (r: String)
    ensures
        r@ == dec_spec(n as nat),
    decreases n,
{
    if n < 10 {
        String::from_str(dec_digit(n))
    } else {
        let s = dec_string(n / 10);
        proof {
            assert((n / 10) as nat == n as nat / 10);
            assert((n % 10) as nat == n as nat % 10);
        }
        s.concat(dec_digit(n % 10))
    }
}

/// The derivation path `m/44'/{coin_type}'/0'/0/0` as a string.
pub fn derivation_path(coin_type: u32) -> (r: String)
    ensures
        r@ == path_spec(coin_type),
{
    let mut s = String::from_str("m/44'/");
    let d = dec_string(coin_type);
    s.append(d.as_str());
    s.append("'/0'/0/0");
    s
}

/// The private scalar a mnemonic phrase and coin type lead to, through the
/// seed and the fixed derivation path.
pub open spec fn derived_sk(phrase: Seq<char>, coin_type: u32) -> Option<Seq<u8>> {
    match mnemonic_seed(phrase) {
        None => None,
        Some(seed) => path_sk(seed, path_spec(coin_type)),
    }
}

/// The claims map a key is stored as: its name, and its private scalar in
/// lower-case hex.
pub open spec fn key_claims_map(name: Seq<char>, sk: Seq<u8>) -> Map<
    Seq<char>,
    Option<Seq<char>>,
> {
    map!["name"@ => Some(name), "sk"@ => Some(hex_of(sk))]
}

/// The key a claims map rebuilds: it must hold string claims `name` and
/// `sk`, the latter hex decoding to a valid private scalar.
pub open spec fn claims_to_key(m: Map<Seq<char>, Option<Seq<char>>>) -> Option<
    (Seq<char>, Seq<u8>),
> {
    if !m.contains_key("name"@) {
        None
    } else if m["name"@] is None {
        None
    } else if !m.contains_key("sk"@) {
        None
    } else if m["sk"@] is None {
        None
    } else {
        match hex_decode_spec(m["sk"@].unwrap()) {
            None => None,
            Some(b) => if valid_scalar(b) {
                Some((m["name"@].unwrap(), b))
            } else {
                None
            },
        }
    }
}

/// A named signing key. The private scalar is held only here and never
/// leaves the store unencrypted.
pub struct Key {
    name: String,
    sk: Vec<u8>,
}

impl Key {
    /// A key always holds a valid private scalar.
    #[verifier::type_invariant]
    spec fn wf(self) -> bool {
        valid_scalar(self.sk@)
    }

    /// The key's name.
    pub closed spec fn name_spec(self) -> Seq<char> {
        self.name@
    }

    /// The key's private scalar bytes.
    pub closed spec fn sk_spec(self) -> Seq<u8> {
        self.sk@
    }

    /// Derive a key from a BIP-39 mnemonic phrase at
    /// `m/44'/{coin_type}'/0'/0/0`. The seed is computed with an empty
    /// auxiliary passphrase, for compatibility with peer wallets. The
    /// result is a function of the phrase and the coin type alone.
    pub fn from_mnemonic(name: &str, phrase: &str, coin_type: u32) -> (r: Result<
        Key,
        KeyringError,
    >)
        ensures
            r is Ok <==> derived_sk(phrase@, coin_type) is Some,
            r matches Ok(k) ==> k.name_spec() == name@ && Some(k.sk_spec()) == derived_sk(
                phrase@,
                coin_type,
            ) && valid_scalar(k.sk_spec()),
            r matches Err(e) ==> e matches KeyringError::Bip32,
    {
        let seed = match phrase_to_seed(phrase) {
            Some(s) => s,
            None => return Err(KeyringError::Bip32),
        };
        let path = derivation_path(coin_type);
        match derive_path_sk(seed.as_slice(), path.as_str()) {
            Some(sk) => Ok(Key { name: name.to_owned(), sk }),
            None => Err(KeyringError::Bip32),
        }
    }

    /// Build a key from raw private-scalar bytes, rejecting anything that
    /// is not a valid scalar on the curve.
    pub fn from_privkey_bytes(name: &str, sk_bytes: &[u8]) -> (r: Result<Key, KeyringError>)
        ensures
            r is Ok <==> valid_scalar(sk_bytes@),
            r matches Ok(k) ==> k.name_spec() == name@ && k.sk_spec() == sk_bytes@,
            r matches Err(e) ==> e matches KeyringError::Ecdsa,
    {
        if scalar_ok(sk_bytes) {
            Ok(Key { name: name.to_owned(), sk: vstd::slice::slice_to_vec(sk_bytes) })
        } else {
            Err(KeyringError::Ecdsa)
        }
    }

    /// The key's name.
    pub fn name(&self) -> (r: &String)
        ensures
            r@ == self.name_spec(),
    {
        &self.name
    }

    /// A reference to the private scalar bytes.
    pub fn privkey(&self) -> (r: &Vec<u8>)
        ensures
            r@ == self.sk_spec(),
            valid_scalar(r@),
    {
        proof {
            use_type_invariant(self);
        }
        &self.sk
    }

    /// The SEC1-compressed public key, computed from the private scalar;
    /// stable across repeated calls.
    pub fn pubkey(&self) -> (r: Vec<u8>)
        ensures
            r@ == pubkey_of(self.sk_spec()),
            r@.len() == 33,
    {
        proof {
            use_type_invariant(self);
        }
        compute_pubkey(self.sk.as_slice())
    }

    /// Sign a byte string: deterministic ECDSA over its SHA-256 hash.
    pub fn sign(&self, bytes: &[u8]) -> (r: Vec<u8>)
        ensures
            r@ == signature_of(self.sk_spec(), bytes@),
            r@.len() == 64,
    {
        proof {
            use_type_invariant(self);
        }
        compute_signature(self.sk.as_slice(), bytes)
    }

    /// The claims map this key is stored as: `name`, and `sk` in hex.
    pub fn to_claims(&self) -> (r: Claims)
        ensures
            r@ == key_claims_map(self.name_spec(), self.sk_spec()),
            all_text(r.entries@),
            valid_scalar(self.sk_spec()),
    {
        proof {
            use_type_invariant(self);
        }
        let mut entries: Vec<(String, ClaimValue)> = Vec::new();
        entries.push((String::from_str("name"), ClaimValue::Text(self.name.clone())));
        let sk_hex = hex_encode(self.sk.as_slice());
        entries.push((String::from_str("sk"), ClaimValue::Text(sk_hex)));
        let c = Claims { entries };
        proof {
            reveal_strlit("name");
            reveal_strlit("sk");
            let es = c.entries@;
            assert(es.len() == 2);
            assert(es[0].0@ == "name"@ && es[1].0@ == "sk"@);
            assert forall|k: Seq<char>|
                crate::claims::lookup(es, k) == (if k == "sk"@ {
                    Some(es[1].1)
                } else if k == "name"@ {
                    Some(es[0].1)
                } else {
                    None::<ClaimValue>
                }) by {
                reveal_with_fuel(crate::claims::lookup, 3);
                assert(es.drop_last() =~= seq![es[0]]);
                assert(seq![es[0]].drop_last() =~= Seq::<(String, ClaimValue)>::empty());
            }
            assert(c.as_map() =~= key_claims_map(self.name_spec(), self.sk_spec()));
        }
        c
    }

    /// Rebuild a key from a claims map, reporting exactly which part of
    /// the map is missing or ill-formed.
    pub fn from_claims(claims: &Claims) -> (r: Result<Key, KeyringError>)
        ensures
            r is Ok <==> claims_to_key(claims@) is Some,
            r matches Ok(k) ==> claims_to_key(claims@) == Some((k.name_spec(), k.sk_spec())),
            !claims@.contains_key("name"@) ==> (r matches Err(e)
                && e matches KeyringError::MalformedPayload { .. }),
            claims@.contains_key("name"@) && claims@["name"@] is None ==> (r matches Err(e)
                && e matches KeyringError::MalformedPayload { .. }),
            claims@.contains_key("name"@) && claims@["name"@] is Some && !claims@.contains_key(
                "sk"@,
            ) ==> (r matches Err(e) && e matches KeyringError::MalformedPayload { .. }),
            claims@.contains_key("name"@) && claims@["name"@] is Some && claims@.contains_key(
                "sk"@,
            ) && claims@["sk"@] is None ==> (r matches Err(e)
                && e matches KeyringError::MalformedPayload { .. }),
            (claims@.contains_key("name"@) && claims@["name"@] is Some && claims@.contains_key(
                "sk"@,
            ) && (claims@["sk"@] matches Some(h) && hex_decode_spec(h) is None)) ==> (r matches Err(
                e,
            ) && e matches KeyringError::FromHex),
            (claims@.contains_key("name"@) && claims@["name"@] is Some && claims@.contains_key(
                "sk"@,
            ) && (claims@["sk"@] matches Some(h) && (hex_decode_spec(h) matches Some(b)
                && !valid_scalar(b)))) ==> (r matches Err(e) && e matches KeyringError::Ecdsa),
    {
        let name_key = String::from_str("name");
        let sk_key = String::from_str("sk");
        let name = match claims.claim(&name_key) {
            None => return Err(KeyringError::malformed_payload("key `name` not found")),
            Some(ClaimValue::Other) => return Err(
                KeyringError::malformed_payload("incorrect JSON value type for `name`"),
            ),
            Some(ClaimValue::Text(s)) => s.clone(),
        };
        let sk_hex = match claims.claim(&sk_key) {
            None => return Err(KeyringError::malformed_payload("key `sk` not found")),
            Some(ClaimValue::Other) => return Err(
                KeyringError::malformed_payload("incorrect JSON value type for `sk`"),
            ),
            Some(ClaimValue::Text(s)) => s.clone(),
        };
        let sk_bytes = match hex_decode(sk_hex.as_str()) {
            None => return Err(KeyringError::FromHex),
            Some(b) => b,
        };
        Key::from_privkey_bytes(name.as_str(), sk_bytes.as_slice())
    }
}

/// Derivation determinism: deriving from the same phrase and coin type a
/// second time yields the same private scalar, and so the same public key.
pub proof fn lemma_derivation_deterministic(
    phrase: Seq<char>,
    coin_type: u32,
    sk1: Seq<u8>,
    sk2: Seq<u8>,
)
    requires
        derived_sk(phrase, coin_type) == Some(sk1),
        derived_sk(phrase, coin_type) == Some(sk2),
    ensures
        sk1 == sk2,
        pubkey_of(sk1) == pubkey_of(sk2),
{
}

/// Claims round trip: the claims map written for a key rebuilds exactly
/// that key — same name, same private scalar, and so the same public key.
pub proof fn lemma_claims_round_trip(name: Seq<char>, sk: Seq<u8>)
    requires
        valid_scalar(sk),
    ensures
        claims_to_key(key_claims_map(name, sk)) == Some((name, sk)),
{
    reveal_strlit("name");
    reveal_strlit("sk");
    let m = key_claims_map(name, sk);
    assert("name"@.len() == 4 && "sk"@.len() == 2);
    assert("name"@ != "sk"@);
    assert(m.contains_key("name"@));
    assert(m.contains_key("sk"@));
    assert(m["name"@] == Some(name));
    assert(m["sk"@] == Some(hex_of(sk)));
    crate::hexcodec::lemma_hex_round_trip(sk);
}

} // verus!
