//! A password-protected key store: secp256k1 signing keys derived from
//! BIP-39 mnemonics, persisted one encrypted file per key, unlocked by a
//! bcrypt-hashed store password.

pub mod cipher;
pub mod claims;
pub mod error;
pub mod hexcodec;
pub mod key;
pub mod keyring;
pub mod subcommand;

pub use claims::{ClaimValue, Claims};
pub use error::KeyringError;
pub use key::Key;
pub use keyring::Keyring;
pub use subcommand::KeysSubcmd;
