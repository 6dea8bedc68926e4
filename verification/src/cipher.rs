//! Entry cipher: authenticated encryption of a single entry payload under the
//! master key, with a fresh random nonce per sealing, plus the sealed on-disk
//! form (`[nonce][ciphertext || tag]`) and its opening.

use vstd::prelude::*;

use chacha20poly1305::aead::{Aead, Generate};
use chacha20poly1305::{ChaCha20Poly1305, Key, KeyInit, Nonce};

use crate::codec::{decode_entry, decode_spec, encode_entry, encode_spec, lemma_codec_round_trip};
use crate::errors::VaultError;
use crate::kdf::MasterKey;
use crate::{KEY_LEN, NONCE_LEN, TAG_LEN};

verus! {

/// Largest payload the engine accepts, in bytes. Far below the cipher's own
/// limit, so sealing a payload of accepted length cannot fail in the cipher.
pub const PAYLOAD_MAX: usize = 0xFFF0_0000;

/// The ChaCha20-Poly1305 ciphertext (with its appended tag) for a given key,
/// nonce and plaintext. A function of its arguments alone: encryption is
/// deterministic once key and nonce are fixed.
pub uninterp spec fn aead_ct_of(key: Seq<u8>, nonce: Seq<u8>, plaintext: Seq<u8>) -> Seq<u8>;

/// The ChaCha20-Poly1305 decryption outcome for a given key, nonce and
/// ciphertext-with-tag: the recovered plaintext, or `None` when the tag does
/// not verify. A function of its arguments alone.
pub uninterp spec fn aead_pt_of(key: Seq<u8>, nonce: Seq<u8>, ciphertext: Seq<u8>) -> Option<
    Seq<u8>,
>;

/// Relies on chacha20poly1305's `ChaCha20Poly1305` through
/// `aead::Aead::encrypt`: the ciphertext is a deterministic function of key, nonce and
/// plaintext; a 16-byte tag is appended; the call errs only when the
/// plaintext exceeds the construction's block-count limit, which the
/// precondition rules out; and decrypting the result under the same key and
/// nonce yields the plaintext back.
#[verifier::external_body]
fn aead_encrypt(key: &[u8], nonce: &[u8], plaintext: &[u8]) -> (r: Vec<u8>)
    requires
        key@.len() == KEY_LEN,
        nonce@.len() == NONCE_LEN,
        plaintext@.len() <= PAYLOAD_MAX,
    ensures
        r@ == aead_ct_of(key@, nonce@, plaintext@),
        r@.len() == plaintext@.len() + TAG_LEN,
        aead_pt_of(key@, nonce@, r@) == Some(plaintext@),
{
    let cipher = ChaCha20Poly1305::new(Key::from_slice(key));
    cipher.encrypt(Nonce::from_slice(nonce), plaintext).expect("plaintext within AEAD limit")
}

/// Relies on chacha20poly1305's `ChaCha20Poly1305` through
/// `aead::Aead::decrypt`: the outcome is a deterministic function of key, nonce and
/// ciphertext; verification strips the 16-byte tag on success and errs on a
/// ciphertext shorter than the tag or an unverifiable tag.
#[verifier::external_body]
fn aead_decrypt(key: &[u8], nonce: &[u8], ciphertext: &[u8]) -> (r: Option<Vec<u8>>)
    requires
        key@.len() == KEY_LEN,
        nonce@.len() == NONCE_LEN,
    ensures
        r matches Some(p) ==> {
            &&& aead_pt_of(key@, nonce@, ciphertext@) == Some(p@)
            &&& p@.len() + TAG_LEN == ciphertext@.len()
        },
        r is None ==> aead_pt_of(key@, nonce@, ciphertext@) is None,
        ciphertext@.len() < TAG_LEN ==> r is None,
{
    let cipher = ChaCha20Poly1305::new(Key::from_slice(key));
    cipher.decrypt(Nonce::from_slice(nonce), ciphertext).ok()
}

/// Relies on crypto-common's `Generate` impl for byte arrays (re-exported by
/// chacha20poly1305 as `aead::Generate`), which fills the array from the
/// operating system's secure random source; nothing is assumed of the value
/// beyond its length.
#[verifier::external_body]
pub(crate) fn random_bytes<const N: usize>() -> (r: Option<Vec<u8>>)
    ensures
        r matches Some(b) ==> b@.len() == N,
{
    match <[u8; N] as Generate>::try_generate() {
        Ok(bytes) => Some(bytes.to_vec()),
        Err(_) => None,
    }
}

/// The sealed on-disk bytes of a payload for a given key and nonce: the nonce
/// followed by the ciphertext-with-tag.
pub open spec fn sealed_spec(key: Seq<u8>, nonce: Seq<u8>, plaintext: Seq<u8>) -> Seq<u8> {
    encode_spec(nonce, aead_ct_of(key, nonce, plaintext))
}

/// The outcome of opening stored entry bytes under a key: split off the
/// nonce, then decrypt. `None` when the framing is too short or the tag does
/// not verify.
pub open spec fn open_spec(key: Seq<u8>, data: Seq<u8>) -> Option<Seq<u8>> {
    match decode_spec(data) {
        Some(parts) => aead_pt_of(key, parts.0, parts.1),
        None => None,
    }
}

/// The first [`NONCE_LEN`] bytes of a sealed entry are exactly the nonce it
/// was sealed with: the nonce each stored entry used is recoverable from its
/// file, and two stored entries share a nonce only if their files share a
/// prefix.
pub proof fn lemma_sealed_nonce_prefix(key: Seq<u8>, nonce: Seq<u8>, plaintext: Seq<u8>)
    requires
        nonce.len() == NONCE_LEN,
    ensures
        sealed_spec(key, nonce, plaintext).subrange(0, NONCE_LEN as int) == nonce,
{
    lemma_codec_round_trip(nonce, aead_ct_of(key, nonce, plaintext));
}

/// Encrypts a payload under `key` with the given fresh nonce and frames it
/// for storage. Opening the result under the same key returns the payload:
/// the round trip is byte-for-byte.
pub fn seal_with_nonce(key: &MasterKey, nonce: &[u8], payload: &[u8]) -> (r: Vec<u8>)
    requires
        key.wf(),
        nonce@.len() == NONCE_LEN,
        payload@.len() <= PAYLOAD_MAX,
    ensures
        r@ == sealed_spec(key@, nonce@, payload@),
        r@.len() == payload@.len() + NONCE_LEN + TAG_LEN,
        open_spec(key@, r@) == Some(payload@),
{
    let ciphertext = aead_encrypt(key.as_bytes(), nonce, payload);
    let sealed = encode_entry(nonce, ciphertext.as_slice());
    proof {
        lemma_codec_round_trip(nonce@, ciphertext@);
    }
    sealed
}

/// Seals a payload under `key` with a nonce drawn fresh from the system's
/// secure random source. Errs with [`VaultError::Randomness`] only when that
/// source fails; on success the stored bytes open back to the payload.
pub fn seal_entry(key: &MasterKey, payload: &[u8]) -> (r: Result<Vec<u8>, VaultError>)
    requires
        key.wf(),
        payload@.len() <= PAYLOAD_MAX,
    ensures
        r matches Ok(data) ==> {
            &&& exists|nonce: Seq<u8>|
                nonce.len() == NONCE_LEN && data@ == #[trigger] sealed_spec(key@, nonce, payload@)
            &&& open_spec(key@, data@) == Some(payload@)
            &&& data@.len() == payload@.len() + NONCE_LEN + TAG_LEN
        },
        r is Err ==> r == Err::<Vec<u8>, VaultError>(VaultError::Randomness),
{
    let nonce = match random_bytes::<NONCE_LEN>() {
        Some(n) => n,
        None => {
            return Err(VaultError::Randomness);
        },
    };
    let sealed = seal_with_nonce(key, nonce.as_slice(), payload);
    assert(sealed@ == sealed_spec(key@, nonce@, payload@));
    Ok(sealed)
}

/// Opens stored entry bytes under `key`: splits off the nonce and decrypts.
/// Errs with [`VaultError::MalformedEntry`] exactly when the data is shorter
/// than the nonce width, and with [`VaultError::Authentication`] exactly when
/// the framing is intact but the tag does not verify — a wrong key, or
/// tampered bytes.
pub fn open_entry(key: &MasterKey, data: &[u8]) -> (r: Result<Vec<u8>, VaultError>)
    requires
        key.wf(),
    ensures
        r matches Ok(p) ==> open_spec(key@, data@) == Some(p@),
        r is Ok <==> open_spec(key@, data@) is Some,
        r is Err ==> r == Err::<Vec<u8>, VaultError>(
            if decode_spec(data@) is None {
                VaultError::MalformedEntry
            } else {
                VaultError::Authentication
            },
        ),
{
    let (nonce, ciphertext) = match decode_entry(data) {
        Ok(parts) => parts,
        Err(e) => {
            return Err(e);
        },
    };
    match aead_decrypt(key.as_bytes(), nonce.as_slice(), ciphertext.as_slice()) {
        Some(p) => Ok(p),
        None => Err(VaultError::Authentication),
    }
}

} // verus!
