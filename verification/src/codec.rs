//! Entry codec: byte-level framing of a stored entry and validation of entry
//! names as safe filesystem path components.
//!
//! An entry is stored as one file whose name is the entry name and whose
//! contents are `[nonce][ciphertext || tag]`. This module owns no secrets; it
//! is pure framing.

use vstd::prelude::*;

use crate::errors::VaultError;
use crate::NONCE_LEN;

verus! {

/// A character that may appear in an entry name: anything but a path
/// separator or the NUL byte.
pub open spec fn name_char_ok(c: char) -> bool {
    c != '/' && c != '\\' && c != '\u{0}'
}

/// A valid entry name: non-empty, free of path separators and NUL, and not
/// starting with `'.'`. The leading-dot rule reserves the vault's own files
/// (the salt file, the temporary write file) and rules out the special names
/// `.` and `..`.
pub open spec fn valid_name_spec(s: Seq<char>) -> bool {
    &&& s.len() > 0
    &&& s[0] != '.'
    &&& forall|i: int| 0 <= i < s.len() ==> name_char_ok(#[trigger] s[i])
}

/// Decides whether `name` is a valid entry name.
pub fn valid_entry_name(name: &str) -> (r: bool)
    ensures
        r == valid_name_spec(name@),
{
    let len = name.unicode_len();
    if len == 0 {
        return false;
    }
    if name.get_char(0) == '.' {
        return false;
    }
    let mut i: usize = 0;
    while i < len
        invariant
            len == name@.len(),
            i <= len,
            forall|j: int| 0 <= j < i ==> name_char_ok(#[trigger] name@[j]),
        decreases len - i,
    {
        let c = name.get_char(i);
        if c == '/' || c == '\\' || c == '\u{0}' {
            return false;
        }
        i = i + 1;
    }
    true
}

/// The on-disk bytes of an entry: the nonce followed by the ciphertext.
pub open spec fn encode_spec(nonce: Seq<u8>, ciphertext: Seq<u8>) -> Seq<u8> {
    nonce + ciphertext
}

/// Splits stored bytes back into nonce and ciphertext; `None` when the data
/// is shorter than the fixed nonce width.
pub open spec fn decode_spec(data: Seq<u8>) -> Option<(Seq<u8>, Seq<u8>)> {
    if data.len() >= NONCE_LEN {
        Some(
            (
                data.subrange(0, NONCE_LEN as int),
                data.subrange(NONCE_LEN as int, data.len() as int),
            ),
        )
    } else {
        None
    }
}

/// Frames a nonce and a ciphertext as the entry's on-disk bytes.
pub fn encode_entry(nonce: &[u8], ciphertext: &[u8]) -> (r: Vec<u8>)
    requires
        nonce@.len() == NONCE_LEN,
        ciphertext@.len() <= usize::MAX - NONCE_LEN,
    ensures
        r@ == encode_spec(nonce@, ciphertext@),
{
    let mut out: Vec<u8> = Vec::new();
    out.extend_from_slice(nonce);
    out.extend_from_slice(ciphertext);
    out
}

/// Splits an entry's stored bytes into nonce and ciphertext, rejecting data
/// too short to hold a nonce.
pub fn decode_entry(data: &[u8]) -> (r: Result<(Vec<u8>, Vec<u8>), VaultError>)
    ensures
        r matches Ok(p) ==> decode_spec(data@) == Some((p.0@, p.1@)),
        r is Ok <==> decode_spec(data@) is Some,
        r is Err ==> r == Err::<(Vec<u8>, Vec<u8>), VaultError>(VaultError::MalformedEntry),
{
    if data.len() < NONCE_LEN {
        return Err(VaultError::MalformedEntry);
    }
    let mut nonce: Vec<u8> = Vec::new();
    nonce.extend_from_slice(&data[0..NONCE_LEN]);
    let mut ciphertext: Vec<u8> = Vec::new();
    ciphertext.extend_from_slice(&data[NONCE_LEN..data.len()]);
    assert(nonce@ =~= data@.subrange(0, NONCE_LEN as int));
    assert(ciphertext@ =~= data@.subrange(NONCE_LEN as int, data@.len() as int));
    Ok((nonce, ciphertext))
}

/// Decoding inverts encoding: the framed bytes split back into exactly the
/// nonce and ciphertext they were built from.
pub proof fn lemma_codec_round_trip(nonce: Seq<u8>, ciphertext: Seq<u8>)
    requires
        nonce.len() == NONCE_LEN,
    ensures
        decode_spec(encode_spec(nonce, ciphertext)) == Some((nonce, ciphertext)),
{
    let data = encode_spec(nonce, ciphertext);
    assert(data.subrange(0, NONCE_LEN as int) =~= nonce);
    assert(data.subrange(NONCE_LEN as int, data.len() as int) =~= ciphertext);
}

} // verus!
