//! Key derivation: a passphrase plus the vault's persisted salt become a
//! 256-bit master key through Argon2id, a memory-hard derivation function.
//!
//! The derived key exists only in memory; [`MasterKey::wipe`] zeroes it when
//! the caller is done.

use vstd::prelude::*;

use crate::errors::VaultError;
use crate::KEY_LEN;

verus! {

/// The 32-byte Argon2id output for a given passphrase and salt, under the
/// argon2 crate's default cost parameters. A function of its arguments alone:
/// the same passphrase and salt always yield the same key.
pub uninterp spec fn argon2id_key_of(passphrase: Seq<u8>, salt: Seq<u8>) -> Seq<u8>;

/// Relies on argon2's `Argon2::hash_password_into` under the crate's default
/// Argon2id parameters (Argon2id v19, 19 MiB memory, 2 iterations, 1 lane):
/// the output is a deterministic function of the passphrase and salt alone;
/// the call errs when the salt is shorter than 8 bytes or longer than
/// 2^32 - 1, when the passphrase exceeds 2^32 - 1 bytes, or when the host
/// cannot allocate the working memory.
#[verifier::external_body]
fn argon2id_derive(passphrase: &[u8], salt: &[u8]) -> (r: Option<Vec<u8>>)
    ensures
        r matches Some(k) ==> {
            &&& k@ == argon2id_key_of(passphrase@, salt@)
            &&& k@.len() == KEY_LEN
        },
        salt@.len() < 8 ==> r is None,
{
    let mut out = [0u8; 32];
    match argon2::Argon2::default().hash_password_into(passphrase, salt, &mut out) {
        Ok(()) => Some(out.to_vec()),
        Err(_) => None,
    }
}

/// The derived 256-bit master key. Never persisted; wipe it after use.
pub struct MasterKey {
    pub(crate) bytes: Vec<u8>,
}

impl View for MasterKey {
    type V = Seq<u8>;

    closed spec fn view(&self) -> Seq<u8> {
        self.bytes@
    }
}

impl MasterKey {
    /// A well-formed master key holds exactly [`KEY_LEN`] bytes.
    pub open spec fn wf(&self) -> bool {
        self@.len() == KEY_LEN
    }

    /// The raw key bytes, for handing to the cipher.
    pub fn as_bytes(&self) -> (r: &[u8])
        ensures
            r@ == self@,
    {
        self.bytes.as_slice()
    }

    /// Zeroes the key material in place.
    pub fn wipe(&mut self)
        ensures
            final(self)@.len() == old(self)@.len(),
            forall|i: int| 0 <= i < final(self)@.len() ==> final(self)@[i] == 0u8,
    {
        crate::wipe_bytes(&mut self.bytes);
    }
}

/// Derives the master key from a passphrase and the vault's salt.
///
/// Deterministic: on success the key is exactly the Argon2id output for this
/// passphrase and salt, so the same inputs always yield the same key.
/// Errs with [`VaultError::KeyDerivation`] when the derivation function
/// rejects its parameters (salt shorter than 8 bytes) or when the host cannot
/// satisfy its memory cost.
pub fn derive(passphrase: &[u8], salt: &[u8]) -> (r: Result<MasterKey, VaultError>)
    ensures
        r matches Ok(k) ==> {
            &&& k.wf()
            &&& k@ == argon2id_key_of(passphrase@, salt@)
        },
        r is Err ==> r == Err::<MasterKey, VaultError>(VaultError::KeyDerivation),
        salt@.len() < 8 ==> r is Err,
{
    match argon2id_derive(passphrase, salt) {
        Some(bytes) => Ok(MasterKey { bytes }),
        None => Err(VaultError::KeyDerivation),
    }
}

} // verus!
