//! Vault engine: the in-memory model of a vault and its operations.
//!
//! A [`Vault`] mirrors the vault directory: its persisted salt and one stored
//! record per entry file, each a name plus the file's raw bytes. The engine
//! decides everything — duplicate checks, name validation, sealing, opening —
//! and the caller only moves the resulting bytes to and from disk, loading
//! entry files in the order it wants them listed (lexicographic by filename
//! for a deterministic listing).

use vstd::prelude::*;

use crate::cipher::{
    aead_pt_of, open_entry, open_spec, seal_entry, sealed_spec, PAYLOAD_MAX,
};
use crate::codec::{decode_spec, valid_entry_name, valid_name_spec};
use crate::errors::VaultError;
use crate::kdf::{argon2id_key_of, MasterKey};
use crate::{NONCE_LEN, SALT_LEN};

verus! {

/// One stored entry: the entry's name and the raw bytes of its file.
pub struct StoredEntry {
    pub name: String,
    pub data: Vec<u8>,
}

/// One row of a listing: the entry's name, and either its decrypted payload
/// or the per-entry error that opening it produced.
pub struct ListedEntry {
    pub name: String,
    pub outcome: Result<Vec<u8>, VaultError>,
}

/// What opening stored bytes under a key reports in a listing: the payload,
/// [`VaultError::MalformedEntry`] when the framing is shorter than a nonce,
/// or [`VaultError::Authentication`] when the integrity tag does not verify.
pub open spec fn listed_outcome_spec(key: Seq<u8>, data: Seq<u8>) -> Result<Seq<u8>, VaultError> {
    match decode_spec(data) {
        None => Err(VaultError::MalformedEntry),
        Some(parts) => match aead_pt_of(key, parts.0, parts.1) {
            Some(p) => Ok(p),
            None => Err(VaultError::Authentication),
        },
    }
}

/// The in-memory model of a vault: its salt and its stored entries.
pub struct Vault {
    salt: Vec<u8>,
    entries: Vec<StoredEntry>,
}

impl View for Vault {
    type V = Seq<(Seq<char>, Seq<u8>)>;

    /// The stored entries, in order: each entry's name and file bytes.
    closed spec fn view(&self) -> Seq<(Seq<char>, Seq<u8>)> {
        Seq::new(
            self.entries@.len(),
            |i: int| (self.entries@[i].name@, self.entries@[i].data@),
        )
    }
}

impl Vault {
    /// The vault's persisted salt.
    pub closed spec fn salt_spec(&self) -> Seq<u8> {
        self.salt@
    }

    /// Well-formedness: the salt has its fixed width, every entry name is a
    /// valid path component, and no two entries share a name.
    pub open spec fn wf(&self) -> bool {
        &&& self.salt_spec().len() == SALT_LEN
        &&& forall|i: int| 0 <= i < self@.len() ==> valid_name_spec((#[trigger] self@[i]).0)
        &&& forall|i: int, j: int|
            0 <= i < j < self@.len() ==> (#[trigger] self@[i]).0 != (#[trigger] self@[j]).0
    }

    /// Whether an entry of this name is stored.
    pub open spec fn contains_name(&self, name: Seq<char>) -> bool {
        exists|i: int| 0 <= i < self@.len() && (#[trigger] self@[i]).0 == name
    }

    /// The position of the entry of this name.
    pub open spec fn index_of(&self, name: Seq<char>) -> int {
        choose|i: int| 0 <= i < self@.len() && (#[trigger] self@[i]).0 == name
    }

    /// The stored file bytes of the entry of this name.
    pub open spec fn data_of(&self, name: Seq<char>) -> Seq<u8> {
        self@[self.index_of(name)].1
    }

    /// Builds the model of a freshly read vault from its persisted salt,
    /// with no entries loaded yet. Errs with [`VaultError::CorruptVault`]
    /// exactly when the salt does not have its fixed width.
    pub fn from_salt(salt: Vec<u8>) -> (r: Result<Vault, VaultError>)
        ensures
            r matches Ok(v) ==> {
                &&& v.wf()
                &&& v.salt_spec() == salt@
                &&& v@ === Seq::<(Seq<char>, Seq<u8>)>::empty()
            },
            r is Ok <==> salt@.len() == SALT_LEN,
            r is Err ==> r == Err::<Vault, VaultError>(VaultError::CorruptVault),
    {
        if salt.len() != SALT_LEN {
            return Err(VaultError::CorruptVault);
        }
        let v = Vault { salt, entries: Vec::new() };
        assert(v@ =~= Seq::<(Seq<char>, Seq<u8>)>::empty());
        Ok(v)
    }

    /// Number of stored entries.
    pub fn len(&self) -> (r: usize)
        ensures
            r == self@.len(),
    {
        self.entries.len()
    }

    /// The stored record at position `i`: the entry's name and the raw bytes
    /// its file must hold. This is what the caller persists to disk.
    pub fn entry_at(&self, i: usize) -> (r: (&String, &Vec<u8>))
        requires
            i < self@.len(),
        ensures
            r.0@ == self@[i as int].0,
            r.1@ == self@[i as int].1,
    {
        let e = &self.entries[i];
        (&e.name, &e.data)
    }

    /// The position of the entry named `name`, if any.
    fn find_index(&self, name: &String) -> (r: Option<usize>)
        requires
            self.wf(),
        ensures
            r matches Some(i) ==> i < self@.len() && self@[i as int].0 == name@,
            r is None ==> !self.contains_name(name@),
    {
        let n = self.entries.len();
        let mut i: usize = 0;
        while i < n
            invariant
                n == self@.len(),
                i <= n,
                self@.len() == self.entries@.len(),
                forall|j: int| 0 <= j < self@.len() ==> (#[trigger] self@[j]).0 == self.entries@[j].name@,
                forall|j: int| 0 <= j < i ==> (#[trigger] self@[j]).0 != name@,
            decreases n - i,
        {
            if self.entries[i].name == *name {
                return Some(i);
            }
            i = i + 1;
        }
        None
    }

    /// Loads one entry file read from the vault directory into the model.
    /// Rejects a name that is not a valid entry name with
    /// [`VaultError::MalformedEntry`], and a name already loaded with
    /// [`VaultError::DuplicateEntry`]; otherwise appends the record.
    pub fn load_entry(&mut self, name: String, data: Vec<u8>) -> (r: Result<(), VaultError>)
        requires
            old(self).wf(),
        ensures
            final(self).wf(),
            final(self).salt_spec() == old(self).salt_spec(),
            r is Err ==> final(self)@ == old(self)@,
            r is Ok <==> valid_name_spec(name@) && !old(self).contains_name(name@),
            r is Ok ==> final(self)@ == old(self)@.push((name@, data@)),
            !valid_name_spec(name@) ==> r == Err::<(), VaultError>(VaultError::MalformedEntry),
            valid_name_spec(name@) && old(self).contains_name(name@) ==> r == Err::<(),
                VaultError,
            >(VaultError::DuplicateEntry),
    {
        if !valid_entry_name(name.as_str()) {
            return Err(VaultError::MalformedEntry);
        }
        if self.find_index(&name).is_some() {
            return Err(VaultError::DuplicateEntry);
        }
        let ghost pre = self@;
        let ghost pushed_name = name@;
        let ghost pushed_data = data@;
        self.entries.push(StoredEntry { name, data });
        proof {
            assert(self@ =~= pre.push((pushed_name, pushed_data)));
        }
        Ok(())
    }

    /// Derives the master key for this vault from a passphrase: the key is
    /// exactly the Argon2id output for the passphrase and this vault's salt.
    /// The passphrase is not validated here — a wrong passphrase yields a
    /// different key, and every later decryption under it fails its tag.
    pub fn unlock(&self, passphrase: &[u8]) -> (r: Result<MasterKey, VaultError>)
        requires
            self.wf(),
        ensures
            r matches Ok(k) ==> {
                &&& k.wf()
                &&& k@ == argon2id_key_of(passphrase@, self.salt_spec())
            },
            r is Err ==> r == Err::<MasterKey, VaultError>(VaultError::KeyDerivation),
    {
        crate::kdf::derive(passphrase, self.salt.as_slice())
    }

    /// Adds a new entry: validates the name, refuses a duplicate, seals the
    /// payload under `key` with a fresh random nonce, and stores the framed
    /// bytes. On success the new record opens back to exactly `payload`, and
    /// every prior entry is untouched.
    pub fn add(&mut self, key: &MasterKey, name: String, payload: &[u8]) -> (r: Result<
        (),
        VaultError,
    >)
        requires
            old(self).wf(),
            key.wf(),
            payload@.len() <= PAYLOAD_MAX,
        ensures
            final(self).wf(),
            final(self).salt_spec() == old(self).salt_spec(),
            r is Err ==> final(self)@ == old(self)@,
            !valid_name_spec(name@) <==> r == Err::<(), VaultError>(VaultError::MalformedEntry),
            valid_name_spec(name@) && old(self).contains_name(name@) <==> r == Err::<(),
                VaultError,
            >(VaultError::DuplicateEntry),
            valid_name_spec(name@) && !old(self).contains_name(name@) ==> (r is Ok || r == Err::<
                (),
                VaultError,
            >(VaultError::Randomness)),
            r is Ok ==> {
                &&& valid_name_spec(name@)
                &&& !old(self).contains_name(name@)
                &&& exists|nonce: Seq<u8>|
                    nonce.len() == NONCE_LEN && final(self)@ == old(self)@.push(
                        (name@, #[trigger] sealed_spec(key@, nonce, payload@)),
                    )
                &&& open_spec(key@, final(self)@.last().1) == Some(payload@)
                &&& final(self)@.len() == old(self)@.len() + 1
            },
    {
        if !valid_entry_name(name.as_str()) {
            return Err(VaultError::MalformedEntry);
        }
        if self.find_index(&name).is_some() {
            return Err(VaultError::DuplicateEntry);
        }
        let sealed = match seal_entry(key, payload) {
            Ok(bytes) => bytes,
            Err(e) => {
                return Err(e);
            },
        };
        let ghost pre = self@;
        let ghost pushed_name = name@;
        let ghost pushed_data = sealed@;
        self.entries.push(StoredEntry { name, data: sealed });
        proof {
            assert(self@ =~= pre.push((pushed_name, pushed_data)));
        }
        Ok(())
    }

    /// Reads one entry's decrypted payload. Errs with
    /// [`VaultError::NotFound`] exactly when no entry has this name; an
    /// existing entry errs as its stored bytes open: see
    /// [`listed_outcome_spec`].
    pub fn get(&self, key: &MasterKey, name: &String) -> (r: Result<Vec<u8>, VaultError>)
        requires
            self.wf(),
            key.wf(),
        ensures
            !self.contains_name(name@) <==> r == Err::<Vec<u8>, VaultError>(VaultError::NotFound),
            self.contains_name(name@) ==> (match r {
                Ok(p) => listed_outcome_spec(key@, self.data_of(name@)) == Ok::<
                    Seq<u8>,
                    VaultError,
                >(p@),
                Err(e) => listed_outcome_spec(key@, self.data_of(name@)) == Err::<
                    Seq<u8>,
                    VaultError,
                >(e),
            }),
    {
        let i = match self.find_index(name) {
            Some(i) => i,
            None => {
                return Err(VaultError::NotFound);
            },
        };
        proof {
            lemma_unique_index(self, name@, i as int);
        }
        open_entry(key, self.entries[i].data.as_slice())
    }

    /// Removes the entry named `name` after confirming that `key` opens it —
    /// by policy, an entry is never deleted blindly: a caller whose key
    /// cannot authenticate the entry gets the same error a read would give,
    /// and the vault is unchanged. Errs with [`VaultError::NotFound`] exactly
    /// when no entry has this name; on success exactly that one record is
    /// gone.
    pub fn remove(&mut self, key: &MasterKey, name: &String) -> (r: Result<(), VaultError>)
        requires
            old(self).wf(),
            key.wf(),
        ensures
            final(self).wf(),
            final(self).salt_spec() == old(self).salt_spec(),
            r is Err ==> final(self)@ == old(self)@,
            !old(self).contains_name(name@) <==> r == Err::<(), VaultError>(VaultError::NotFound),
            old(self).contains_name(name@) ==> {
                &&& (r is Ok <==> listed_outcome_spec(key@, old(self).data_of(name@)) is Ok)
                &&& (r matches Err(e) ==> (e != VaultError::NotFound ==> listed_outcome_spec(
                    key@,
                    old(self).data_of(name@),
                ) == Err::<Seq<u8>, VaultError>(e)))
            },
            r is Ok ==> final(self)@ == old(self)@.remove(old(self).index_of(name@)),
    {
        let i = match self.find_index(name) {
            Some(i) => i,
            None => {
                return Err(VaultError::NotFound);
            },
        };
        proof {
            lemma_unique_index(self, name@, i as int);
        }
        match open_entry(key, self.entries[i].data.as_slice()) {
            Ok(_) => {},
            Err(e) => {
                return Err(e);
            },
        }
        let ghost pre = self@;
        self.entries.remove(i);
        proof {
            assert(self@ =~= pre.remove(i as int));
            lemma_wf_after_remove(pre, self@, i as int, old(self).salt_spec().len() as int);
        }
        Ok(())
    }

    /// Lists every stored entry in order: each name together with its
    /// decrypted payload, or with the per-entry error that opening it gave —
    /// one corrupt or foreign-key entry annotates its own row and hides
    /// nothing else.
    pub fn list(&self, key: &MasterKey) -> (r: Vec<ListedEntry>)
        requires
            self.wf(),
            key.wf(),
        ensures
            r@.len() == self@.len(),
            forall|i: int|
                0 <= i < r@.len() ==> {
                    &&& (#[trigger] r@[i]).name@ == self@[i].0
                    &&& (match r@[i].outcome {
                        Ok(p) => listed_outcome_spec(key@, self@[i].1) == Ok::<Seq<u8>, VaultError>(
                            p@,
                        ),
                        Err(e) => listed_outcome_spec(key@, self@[i].1) == Err::<
                            Seq<u8>,
                            VaultError,
                        >(e),
                    })
                },
    {
        let n = self.entries.len();
        let mut out: Vec<ListedEntry> = Vec::new();
        let mut i: usize = 0;
        while i < n
            invariant
                self.wf(),
                key.wf(),
                n == self@.len(),
                i <= n,
                self@.len() == self.entries@.len(),
                forall|j: int|
                    0 <= j < self@.len() ==> #[trigger] self@[j] == (
                        self.entries@[j].name@,
                        self.entries@[j].data@,
                    ),
                out@.len() == i,
                forall|j: int|
                    0 <= j < i ==> {
                        &&& (#[trigger] out@[j]).name@ == self@[j].0
                        &&& (match out@[j].outcome {
                            Ok(p) => listed_outcome_spec(key@, self@[j].1) == Ok::<
                                Seq<u8>,
                                VaultError,
                            >(p@),
                            Err(e) => listed_outcome_spec(key@, self@[j].1) == Err::<
                                Seq<u8>,
                                VaultError,
                            >(e),
                        })
                    },
            decreases n - i,
        {
            let name = self.entries[i].name.clone();
            let outcome = open_entry(key, self.entries[i].data.as_slice());
            out.push(ListedEntry { name, outcome });
            i = i + 1;
        }
        out
    }
}

/// In a well-formed vault the index found for a name is the only one, so it
/// equals `index_of`.
proof fn lemma_unique_index(v: &Vault, name: Seq<char>, i: int)
    requires
        v.wf(),
        0 <= i < v@.len(),
        v@[i].0 == name,
    ensures
        v.index_of(name) == i,
        v.data_of(name) == v@[i].1,
        v.contains_name(name),
{
    assert(v.contains_name(name));
    let j = v.index_of(name);
    assert(0 <= j < v@.len() && v@[j].0 == name);
    if i < j {
        assert(v@[i].0 != v@[j].0);
    } else if j < i {
        assert(v@[j].0 != v@[i].0);
    }
}

/// Removing one record keeps every name valid and all names distinct.
proof fn lemma_wf_after_remove(
    pre: Seq<(Seq<char>, Seq<u8>)>,
    post: Seq<(Seq<char>, Seq<u8>)>,
    i: int,
    salt_len: int,
)
    requires
        0 <= i < pre.len(),
        post == pre.remove(i),
        forall|k: int| 0 <= k < pre.len() ==> valid_name_spec((#[trigger] pre[k]).0),
        forall|k: int, l: int|
            0 <= k < l < pre.len() ==> (#[trigger] pre[k]).0 != (#[trigger] pre[l]).0,
    ensures
        forall|k: int| 0 <= k < post.len() ==> valid_name_spec((#[trigger] post[k]).0),
        forall|k: int, l: int|
            0 <= k < l < post.len() ==> (#[trigger] post[k]).0 != (#[trigger] post[l]).0,
{
    assert forall|k: int| 0 <= k < post.len() implies valid_name_spec((#[trigger] post[k]).0) by {
        if k < i {
            assert(post[k] == pre[k]);
        } else {
            assert(post[k] == pre[k + 1]);
        }
    }
    assert forall|k: int, l: int|
        0 <= k < l < post.len() implies (#[trigger] post[k]).0 != (#[trigger] post[l]).0 by {
        let k0 = if k < i { k } else { k + 1 };
        let l0 = if l < i { l } else { l + 1 };
        assert(post[k] == pre[k0]);
        assert(post[l] == pre[l0]);
        assert(k0 < l0);
    }
}

} // verus!
