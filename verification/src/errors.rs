//! The vault's error taxonomy.

use vstd::prelude::*;

verus! {

/// Everything that can go wrong inside the vault engine.
///
/// - `Init`: the vault directory or its salt could not be created.
/// - `CorruptVault`: the vault exists but its salt is missing or malformed;
///   fatal, never auto-repaired.
/// - `KeyDerivation`: the key-derivation function rejected its parameters or
///   the host could not satisfy its memory cost.
/// - `Randomness`: the operating system's secure random source failed.
/// - `Authentication`: an entry's integrity tag did not verify — wrong
///   passphrase or tampered data.
/// - `MalformedEntry`: an entry's on-disk framing (or its name) is invalid.
/// - `NotFound` / `DuplicateEntry`: user-level lookup failures, recoverable.
#[derive(Clone, Copy, Debug, PartialEq, Eq, Structural)]
pub enum VaultError {
    Init,
    CorruptVault,
    KeyDerivation,
    Randomness,
    Authentication,
    MalformedEntry,
    NotFound,
    DuplicateEntry,
}

impl VaultError {
    /// The process exit code associated with this error class: a distinct,
    /// non-zero code per class, so scripts can branch on the failure kind.
    pub open spec fn spec_exit_code(self) -> u8 {
        match self {
            VaultError::Init => 2,
            VaultError::CorruptVault => 3,
            VaultError::KeyDerivation => 4,
            VaultError::Randomness => 5,
            VaultError::Authentication => 6,
            VaultError::MalformedEntry => 7,
            VaultError::NotFound => 8,
            VaultError::DuplicateEntry => 9,
        }
    }

    /// Exit code for this error; never 0, and distinct across the variants.
    pub fn exit_code(&self) -> (r: u8)
        ensures
            r == self.spec_exit_code(),
            r != 0,
    {
        match self {
            VaultError::Init => 2,
            VaultError::CorruptVault => 3,
            VaultError::KeyDerivation => 4,
            VaultError::Randomness => 5,
            VaultError::Authentication => 6,
            VaultError::MalformedEntry => 7,
            VaultError::NotFound => 8,
            VaultError::DuplicateEntry => 9,
        }
    }
}

/// Distinct error classes carry distinct exit codes.
pub proof fn lemma_exit_codes_distinct(a: VaultError, b: VaultError)
    requires
        a != b,
    ensures
        a.spec_exit_code() != b.spec_exit_code(),
{
}

} // verus!
