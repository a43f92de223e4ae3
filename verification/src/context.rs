//! Argument values that are resolved against the runtime context (wallet
//! and configuration) only after parsing: at the command line they are plain
//! alias or raw text, and looking them up is the wallet's business.

use vstd::prelude::*;

verus! {

/// An address given by wallet alias or in raw form; resolved against the
/// wallet after Context construction.
pub struct WalletAddress {
    pub raw: String,
}

impl WalletAddress {
    /// Captures the alias or raw text; this never fails at parse time.
    pub fn parse(s: &str) -> (r: WalletAddress)
        ensures
            r.raw@ == s@,
    {
        WalletAddress { raw: s.to_owned() }
    }
}

/// A keypair given by alias, public key or public key hash; resolved against
/// the wallet after Context construction.
pub struct WalletKeypair {
    pub raw: String,
}

impl WalletKeypair {
    /// Captures the alias or raw text; this never fails at parse time.
    pub fn parse(s: &str) -> (r: WalletKeypair)
        ensures
            r.raw@ == s@,
    {
        WalletKeypair { raw: s.to_owned() }
    }
}

/// A public key given by alias or in raw form; resolved against the wallet
/// after Context construction.
pub struct WalletPublicKey {
    pub raw: String,
}

impl WalletPublicKey {
    /// Captures the alias or raw text; this never fails at parse time.
    pub fn parse(s: &str) -> (r: WalletPublicKey)
        ensures
            r.raw@ == s@,
    {
        WalletPublicKey { raw: s.to_owned() }
    }
}

} // verus!
