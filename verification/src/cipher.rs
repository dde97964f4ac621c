//! Envelope encryption: a claims map is sealed into a self-describing
//! authenticated token under a key derived from the store password, and
//! opened again only under the same password.

use vstd::prelude::*;

use crate::claims::{all_text, ClaimValue, Claims};
use crate::error::KeyringError;

verus! {

/// What opening a token under a password yields: the claims map sealed in
/// it, or nothing when the password is wrong or the token corrupt.
/// Decryption is deterministic in the password and the token.
pub uninterp spec fn jwe_decrypt_spec(password: Seq<char>, token: Seq<u8>) -> Option<
    Map<Seq<char>, Option<Seq<char>>>,
>;

/// What holds of every token the cipher produces for `password` and the
/// claims map `m`: it opens under `password` to exactly `m`, and under no
/// other password at all.
pub open spec fn token_for(
    password: Seq<char>,
    m: Map<Seq<char>, Option<Seq<char>>>,
    token: Seq<u8>,
) -> bool {
    &&& jwe_decrypt_spec(password, token) == Some(m)
    &&& forall|other: Seq<char>| other != password ==> jwe_decrypt_spec(other, token) is None
}

/// Relies on josekit's `PBES2_HS256_A128KW.encrypter_from_bytes` and
/// `jwt::encode_with_encrypter`: the token seals exactly the claims that
/// were set, the content key is derived from the password alone, and the
/// authenticated key wrap makes the token undecryptable under any other
/// password. An empty password is rejected when the encrypter is built.
#[verifier::external_body]
fn jwe_encrypt(password: &str, claims: &Claims) -> (r: Result<Vec<u8>, ()>)
    requires
        all_text(claims.entries@),
    ensures
        r matches Ok(t) ==> password@.len() > 0 && token_for(password@, claims.as_map(), t@),
        password@.len() == 0 ==> r is Err,
{
    let mut header = josekit::jwe::JweHeader::new();
    header.set_token_type("JWT");
    header.set_content_encryption("A128CBC-HS256");
    let mut payload = josekit::jwt::JwtPayload::new();
    for (k, v) in claims.entries.iter() {
        match v {
            ClaimValue::Text(s) => payload
                .set_claim(k, Some(josekit::Value::String(s.clone())))
                .map_err(|_| ())?,
            ClaimValue::Other => return Err(()),
        }
    }
    let enc = josekit::jwe::PBES2_HS256_A128KW.encrypter_from_bytes(password).map_err(|_| ())?;
    josekit::jwt::encode_with_encrypter(&payload, &header, &enc).map(|t| t.into_bytes()).map_err(|_| ())
}

/// Relies on josekit's `PBES2_HS256_A128KW.decrypter_from_bytes` and
/// `jwt::decode_with_decrypter`: opening a token is deterministic in the
/// password and the token, fails exactly when `jwe_decrypt_spec` says so,
/// and yields the sealed claims map, string claims as strings and any
/// other JSON claim value marked opaque.
#[verifier::external_body]
fn jwe_do_decrypt(password: &str, token: &[u8]) -> (r: Result<Claims, ()>)
    ensures
        match r {
            Ok(c) => jwe_decrypt_spec(password@, token@) == Some(c.as_map()),
            Err(_) => jwe_decrypt_spec(password@, token@) is None,
        },
{
    let dec = josekit::jwe::PBES2_HS256_A128KW.decrypter_from_bytes(password).map_err(|_| ())?;
    let (payload, _) = josekit::jwt::decode_with_decrypter(token, &dec).map_err(|_| ())?;
    let entries = payload
        .claims_set()
        .iter()
        .map(|(k, v)| match v {
            josekit::Value::String(s) => (k.clone(), ClaimValue::Text(s.clone())),
            _ => (k.clone(), ClaimValue::Other),
        })
        .collect();
    Ok(Claims { entries })
}

/// Seal a claims map under a password. On success the returned token opens
/// to exactly this claims map under this password, and under no other.
pub fn encrypt(password: &str, claims: &Claims) -> (r: Result<Vec<u8>, KeyringError>)
    requires
        all_text(claims.entries@),
    ensures
        r matches Ok(t) ==> password@.len() > 0 && token_for(password@, claims@, t@),
        r matches Err(e) ==> e matches KeyringError::Jose,
        password@.len() == 0 ==> r is Err,
{
    match jwe_encrypt(password, claims) {
        Ok(t) => Ok(t),
        Err(_) => Err(KeyringError::Jose),
    }
}

/// Open a token under a password, returning the claims map sealed in it,
/// or an error exactly when the password is wrong or the token corrupt.
pub fn decrypt(password: &str, token: &[u8]) -> (r: Result<Claims, KeyringError>)
    ensures
        r matches Ok(c) ==> jwe_decrypt_spec(password@, token@) == Some(c@),
        r matches Err(e) ==> e matches KeyringError::Jose && jwe_decrypt_spec(
            password@,
            token@,
        ) is None,
        r is Ok <==> jwe_decrypt_spec(password@, token@) is Some,
    {
    match jwe_do_decrypt(password, token) {
        Ok(c) => Ok(c),
        Err(_) => Err(KeyringError::Jose),
    }
}

/// Round trip: a token produced for password `p` and claims map `m` opens
/// under `p` to exactly `m`.
pub proof fn lemma_round_trip(
    password: Seq<char>,
    m: Map<Seq<char>, Option<Seq<char>>>,
    token: Seq<u8>,
)
    requires
        token_for(password, m, token),
    ensures
        jwe_decrypt_spec(password, token) == Some(m),
{
}

/// Wrong password: a token produced for password `p1` does not open under
/// any other password `p2`; decryption fails rather than return wrong data.
pub proof fn lemma_wrong_password(
    p1: Seq<char>,
    p2: Seq<char>,
    m: Map<Seq<char>, Option<Seq<char>>>,
    token: Seq<u8>,
)
    requires
        p1 != p2,
        token_for(p1, m, token),
    ensures
        jwe_decrypt_spec(p2, token) is None,
{
}

} // verus!
