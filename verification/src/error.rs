//! The error taxonomy of the key store.

use vstd::prelude::*;

verus! {

/// Everything that can go wrong in the key store. Variants that stand for a
/// failure inside a collaborating library (`Bcrypt`, `Bip32`, `Ecdsa`,
/// `FromHex`, `Jose`) carry no further detail: they are control-flow tags,
/// not diagnostics.
#[derive(Debug)]
pub enum KeyringError {
    /// The stored password-hash record could not be used by bcrypt.
    Bcrypt,
    /// Mnemonic parsing or hierarchic key derivation failed.
    Bip32,
    /// Bytes that are not a valid secp256k1 private scalar.
    Ecdsa,
    /// A hex string that does not decode.
    FromHex,
    /// A filesystem failure, reported by the unverified shell around the store.
    Io { message: String },
    /// Envelope encryption or decryption failed (wrong password or corrupt token).
    Jose,
    /// A store path that cannot be represented as a string.
    StringifyPathFailed,
    /// The entered password does not match the stored hash.
    IncorrectPassword,
    /// The two passwords entered at initialization differ.
    MismatchedPassword,
    /// No key file of this name exists.
    KeyNotFound { name: String },
    /// A key file of this name already exists.
    KeyAlreadyExists { name: String },
    /// A decrypted claims map without the expected fields.
    MalformedPayload { reason: String },
}

impl KeyringError {
    /// Build the error reported when no key of the given name exists.
    pub fn key_not_found(name: &str) -> (r: Self)
        ensures
            r matches KeyringError::KeyNotFound { name: n } && n@ == name@,
    {
        KeyringError::KeyNotFound { name: name.to_owned() }
    }

    /// Build the error reported when a key of the given name already exists.
    pub fn key_already_exists(name: &str) -> (r: Self)
        ensures
            r matches KeyringError::KeyAlreadyExists { name: n } && n@ == name@,
    {
        KeyringError::KeyAlreadyExists { name: name.to_owned() }
    }

    /// Build the error reported for a claims map with a missing or ill-typed field.
    pub fn malformed_payload(reason: &str) -> (r: Self)
        ensures
            r matches KeyringError::MalformedPayload { reason: s } && s@ == reason@,
    {
        KeyringError::MalformedPayload { reason: reason.to_owned() }
    }
}

} // verus!
