//! The key store: a directory of one password-hash record and one
//! encrypted file per key. The store decides; the unverified shell around
//! it prompts, reads and writes files, and reports back what it found.

use vstd::prelude::*;
use vstd::string::*;

use crate::cipher::{decrypt, encrypt, jwe_decrypt_spec, token_for};
use crate::error::KeyringError;
use crate::key::{claims_to_key, key_claims_map, Key};

verus! {

/// What the password gate stores and checks: the result of matching a
/// password against a bcrypt hash record — a match, a mismatch, or
/// nothing when the record itself is unusable. Deterministic in password
/// and record.
pub uninterp spec fn bcrypt_verify_spec(password: Seq<char>, hash_record: Seq<char>) -> Option<
    bool,
>;

/// The bcrypt cost used for new hash records; the smallest the library
/// allows, matching peer tooling.
pub const BCRYPT_COST: u32 = 4;

/// Relies on `bcrypt::verify`: deterministic in the password and the hash
/// record, and an error only for a record bcrypt cannot parse.
#[verifier::external_body]
fn bcrypt_verify(password: &str, hash_record: &str) -> (r: Option<bool>)
    ensures
        r == bcrypt_verify_spec(password@, hash_record@),
{
    bcrypt::verify(password, hash_record).ok()
}

/// Relies on `bcrypt::hash`: with a cost the library accepts it produces a
/// salted record that `bcrypt::verify` parses and matches against the same
/// password.
#[verifier::external_body]
fn bcrypt_hash(password: &str, cost: u32) -> (r: Option<String>)
    requires
        4 <= cost <= 31,
    ensures
        r matches Some(h) ==> bcrypt_verify_spec(password@, h@) == Some(true),
{
    bcrypt::hash(password, cost).ok()
}

/// The key rebuilt from one token under one password, if decryption and
/// the claims both work out.
pub open spec fn token_key(password: Seq<char>, token: Seq<u8>) -> Option<(Seq<char>, Seq<u8>)> {
    match jwe_decrypt_spec(password, token) {
        None => None,
        Some(m) => claims_to_key(m),
    }
}

/// The keys readable from a sequence of tokens under one password, in
/// order, tokens that fail to decrypt or parse skipped.
pub open spec fn decoded_keys(tokens: Seq<Seq<u8>>, password: Seq<char>) -> Seq<
    (Seq<char>, Seq<u8>),
>
    decreases tokens.len(),
{
    if tokens.len() == 0 {
        seq![]
    } else {
        let rest = decoded_keys(tokens.drop_first(), password);
        match token_key(password, tokens.first()) {
            Some(ks) => seq![ks] + rest,
            None => rest,
        }
    }
}

/// The name and private scalar of each key, in order.
pub open spec fn key_views(keys: Seq<Key>) -> Seq<(Seq<char>, Seq<u8>)> {
    keys.map_values(|k: Key| (k.name_spec(), k.sk_spec()))
}

proof fn lemma_decoded_keys_snoc(tokens: Seq<Seq<u8>>, password: Seq<char>, t: Seq<u8>)
    ensures
        decoded_keys(tokens.push(t), password) == decoded_keys(tokens, password) + (
        match token_key(password, t) {
            Some(ks) => seq![ks],
            None => Seq::<(Seq<char>, Seq<u8>)>::empty(),
        }),
    decreases tokens.len(),
{
    let whole = tokens.push(t);
    let none_seq = Seq::<Seq<u8>>::empty();
    let tail = (match token_key(password, t) {
        Some(ks) => seq![ks],
        None => Seq::<(Seq<char>, Seq<u8>)>::empty(),
    });
    assert(decoded_keys(none_seq, password) =~= Seq::<(Seq<char>, Seq<u8>)>::empty());
    if tokens.len() == 0 {
        assert(whole.first() == t);
        assert(whole.drop_first() =~= none_seq);
        assert(decoded_keys(whole.drop_first(), password) =~= Seq::<(Seq<char>, Seq<u8>)>::empty());
        assert(decoded_keys(whole, password) =~= tail);
        assert(decoded_keys(tokens, password) =~= Seq::<(Seq<char>, Seq<u8>)>::empty());
        assert(decoded_keys(whole, password) =~= decoded_keys(tokens, password) + tail);
    } else {
        assert(whole.first() == tokens.first());
        assert(whole.drop_first() =~= tokens.drop_first().push(t));
        lemma_decoded_keys_snoc(tokens.drop_first(), password, t);
        assert(decoded_keys(whole.drop_first(), password) == decoded_keys(tokens.drop_first(), password) + tail);
        assert(decoded_keys(whole, password) =~= decoded_keys(tokens, password) + tail);
    }
}

/// A key store bound to one directory.
pub struct Keyring {
    /// The directory holding the password-hash record and the key files.
    pub dir: String,
}

impl Keyring {
    /// Bind a store to a directory. The shell creates the directory on
    /// disk when it does not exist yet.
    pub fn new(dir: String) -> (r: Keyring)
        ensures
            r.dir@ == dir@,
    {
        Keyring { dir }
    }

    /// The directory the store is bound to.
    pub fn dir(&self) -> (r: Result<String, KeyringError>)
        ensures
            r matches Ok(s) && s@ == self.dir@,
    {
        Ok(self.dir.clone())
    }

    /// The path of the file a key of this name is stored in.
    pub fn filename(&self, name: &str) -> (r: String)
        ensures
            r@ == self.dir@ + "/"@ + name@ + ".key"@,
    {
        let mut s = self.dir.clone();
        s.append("/");
        s.append(name);
        s.append(".key");
        s
    }

    /// The path of the password-hash record.
    pub fn password_hash(&self) -> (r: String)
        ensures
            r@ == self.dir@ + "/password_hash"@,
    {
        let mut s = self.dir.clone();
        s.append("/password_hash");
        s
    }

    /// Check an entered password against the stored hash record: the
    /// password comes back exactly when it matches; a mismatch is
    /// `IncorrectPassword`, an unusable record `Bcrypt`.
    pub fn unlock(&self, password: &str, stored_hash: &str) -> (r: Result<String, KeyringError>)
        ensures
            r is Ok <==> bcrypt_verify_spec(password@, stored_hash@) == Some(true),
            r matches Ok(p) ==> p@ == password@,
            r matches Err(e) ==> ((e matches KeyringError::IncorrectPassword
                && bcrypt_verify_spec(password@, stored_hash@) == Some(false)) || (
            e matches KeyringError::Bcrypt && bcrypt_verify_spec(
                password@,
                stored_hash@,
            ) is None)),
    {
        match bcrypt_verify(password, stored_hash) {
            Some(true) => Ok(password.to_owned()),
            Some(false) => Err(KeyringError::IncorrectPassword),
            None => Err(KeyringError::Bcrypt),
        }
    }

    /// First-time unlock of a store without a hash record: the password
    /// and its confirmation must agree, and the returned record — which
    /// the shell persists, once — verifies against that password.
    pub fn initialize(&self, password: &String, confirmation: &String) -> (r: Result<
        String,
        KeyringError,
    >)
        ensures
            password@ != confirmation@ <==> (r matches Err(e) && e matches
                KeyringError::MismatchedPassword),
            r matches Ok(h) ==> bcrypt_verify_spec(password@, h@) == Some(true),
            r matches Err(e) ==> (e matches KeyringError::MismatchedPassword || e matches
                KeyringError::Bcrypt),
    {
        if !password.eq(confirmation) {
            return Err(KeyringError::MismatchedPassword);
        }
        match bcrypt_hash(password.as_str(), BCRYPT_COST) {
            Some(h) => Ok(h),
            None => Err(KeyringError::Bcrypt),
        }
    }

    /// Seal a key for storage. `already_exists` reports whether the key's
    /// file is present; a present file is never touched — the call fails
    /// with `KeyAlreadyExists` and returns no token. On success the shell
    /// writes the token to the key's file.
    pub fn set(&self, key: &Key, already_exists: bool, password: &str) -> (r: Result<
        Vec<u8>,
        KeyringError,
    >)
        ensures
            already_exists ==> (r matches Err(e) && e matches KeyringError::KeyAlreadyExists {
                name,
            } && name@ == key.name_spec()),
            !already_exists ==> match r {
                Ok(t) => password@.len() > 0 && token_for(
                    password@,
                    key_claims_map(key.name_spec(), key.sk_spec()),
                    t@,
                ),
                Err(e) => e matches KeyringError::Jose,
            },
            !already_exists && password@.len() == 0 ==> r is Err,
    {
        if already_exists {
            return Err(KeyringError::key_already_exists(key.name().as_str()));
        }
        let claims = key.to_claims();
        encrypt(password, &claims)
    }

    /// Rebuild the key of the given name from its file's contents; `None`
    /// stands for an absent file and fails with `KeyNotFound`.
    pub fn get(&self, name: &str, contents: Option<&Vec<u8>>, password: &str) -> (r: Result<
        Key,
        KeyringError,
    >)
        ensures
            contents is None ==> (r matches Err(e) && e matches KeyringError::KeyNotFound {
                name: n,
            } && n@ == name@),
            contents matches Some(t) ==> match token_key(password@, t@) {
                Some(ks) => (r matches Ok(k) && k.name_spec() == ks.0 && k.sk_spec() == ks.1),
                None => r is Err,
            },
            (contents matches Some(t) && jwe_decrypt_spec(password@, t@) is None) ==> (
            r matches Err(e) && e matches KeyringError::Jose),
            (contents matches Some(t) && jwe_decrypt_spec(password@, t@) is Some && token_key(
                password@,
                t@,
            ) is None) ==> (r matches Err(e) && (e matches KeyringError::MalformedPayload { .. }
                || e matches KeyringError::FromHex || e matches KeyringError::Ecdsa)),
    {
        let t = match contents {
            None => return Err(KeyringError::key_not_found(name)),
            Some(t) => t,
        };
        let claims = match decrypt(password, t.as_slice()) {
            Ok(c) => c,
            Err(e) => return Err(e),
        };
        Key::from_claims(&claims)
    }

    /// Rebuild every readable key from the files' contents, in order; a
    /// token that fails to decrypt or parse is skipped, and hides nothing
    /// else.
    pub fn list(&self, tokens: &Vec<Vec<u8>>, password: &str) -> (r: Vec<Key>)
        ensures
            key_views(r@) == decoded_keys(
                tokens@.map_values(|t: Vec<u8>| t@),
                password@,
            ),
    {
        let ghost all = tokens@.map_values(|t: Vec<u8>| t@);
        let mut out: Vec<Key> = Vec::new();
        let n = tokens.len();
        let mut i: usize = 0;
        proof {
            assert(all.take(0) =~= Seq::<Seq<u8>>::empty());
            assert(key_views(out@) =~= decoded_keys(all.take(0), password@));
        }
        while i < n
            invariant
                n == tokens@.len(),
                i <= n,
                all == tokens@.map_values(|t: Vec<u8>| t@),
                key_views(out@) == decoded_keys(all.take(i as int), password@),
            decreases n - i,
        {
            let token = &tokens[i];
            let ghost prefix = all.take(i as int);
            match decrypt(password, token.as_slice()) {
                Ok(claims) => {
                    match Key::from_claims(&claims) {
                        Ok(key) => {
                            out.push(key);
                        },
                        Err(_) => {},
                    }
                },
                Err(_) => {},
            }
            proof {
                assert(all.take(i + 1) =~= prefix.push(all[i as int]));
                lemma_decoded_keys_snoc(prefix, password@, all[i as int]);
                assert(key_views(out@) =~= decoded_keys(all.take(i + 1), password@));
            }
            i = i + 1;
        }
        proof {
            assert(all.take(n as int) =~= all);
        }
        out
    }

    /// Forget the key of the given name: its file, reported present by the
    /// shell, is simply removed; an absent file fails with `KeyNotFound`.
    /// Deletion needs no password — it reveals no key material.
    pub fn delete(&self, name: &str, exists: bool) -> (r: Result<(), KeyringError>)
        ensures
            exists <==> r is Ok,
            !exists ==> (r matches Err(e) && e matches KeyringError::KeyNotFound { name: n }
                && n@ == name@),
    {
        if exists {
            Ok(())
        } else {
            Err(KeyringError::key_not_found(name))
        }
    }
}

} // verus!
