//! The key-management subcommands, as plain data. The command-line shell
//! parses its arguments into this enum and drives the store from it.

use vstd::prelude::*;

verus! {

/// One key-management request.
pub enum KeysSubcmd {
    /// Add a new key of the given name, or recover one from a mnemonic
    /// entered by the user, deriving at the given BIP-44 coin type.
    Add { name: String, recover: bool, coin_type: u32 },
    /// Delete the key of the given name.
    Delete { name: String },
    /// Display the key of the given name.
    Show { name: String },
    /// List every key in the store.
    List,
}

} // verus!
