//! A local, single-user secrets vault engine.
//!
//! A passphrase and a per-vault random salt are turned into a 256-bit master
//! key by a memory-hard derivation function; individual secret entries are
//! encrypted under that key with an AEAD cipher and a fresh random nonce, and
//! framed as `[nonce][ciphertext || tag]` for storage, one file per entry.
//!
//! The crate holds the vault's logic: key derivation, the entry cipher, the
//! on-disk entry framing, and the vault engine (`init`, `unlock`, `add`,
//! `get`, `remove`, `list`) over an in-memory model of the vault directory.
//! Reading and writing the actual files is the caller's part; the engine
//! states exactly which bytes belong where.

pub mod cipher;
pub mod codec;
pub mod engine;
pub mod errors;
pub mod kdf;
pub mod store;

use vstd::pervasive::VecAdditionalExecFns;
use vstd::prelude::*;

verus! {

/// Byte width of an AEAD nonce.
pub const NONCE_LEN: usize = 12;

/// Byte width of the AEAD authentication tag appended to each ciphertext.
pub const TAG_LEN: usize = 16;

/// Byte width of the vault's persisted salt.
pub const SALT_LEN: usize = 16;

/// Byte width of the derived master key.
pub const KEY_LEN: usize = 32;

/// Zeroes a sensitive byte buffer in place. Passphrases, key material and
/// decrypted payloads must be wiped as soon as their last use is past —
/// on success paths and error paths alike.
pub fn wipe_bytes(buf: &mut Vec<u8>)
    ensures
        final(buf)@.len() == old(buf)@.len(),
        forall|i: int| 0 <= i < final(buf)@.len() ==> final(buf)@[i] == 0u8,
{
    let len = buf.len();
    let mut i: usize = 0;
    while i < len
        invariant
            len == buf@.len(),
            i <= len,
            forall|j: int| 0 <= j < i ==> buf@[j] == 0u8,
        decreases len - i,
    {
        buf.set(i, 0);
        i = i + 1;
    }
}

} // verus!
