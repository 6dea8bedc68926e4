//! Vault store: first-run initialization decisions and the write protocol
//! for the vault directory.
//!
//! The store decides; the caller performs the filesystem work. `init` says
//! whether to create the directory and which fresh salt to persist; the
//! directory-model functions below pin down the write-then-rename protocol
//! under which a crash can never leave a half-written entry visible.

use vstd::prelude::*;

use crate::cipher::random_bytes;
use crate::codec::valid_name_spec;
use crate::errors::VaultError;
use crate::SALT_LEN;

verus! {

/// What the caller must do after `init` decided.
pub enum InitAction {
    /// Create the vault directory and persist this fresh random salt inside
    /// it before anything else touches the vault.
    CreateVault(Vec<u8>),
    /// The vault already exists with its salt; nothing to do.
    AlreadyInitialized,
}

/// A vault that has no directory on disk yet is on its first run.
pub fn is_first_run(vault_dir_exists: bool) -> (r: bool)
    ensures
        r == !vault_dir_exists,
{
    !vault_dir_exists
}

/// Decides initialization from what the caller observed on disk. On a first
/// run, draws a fresh random salt of the fixed width for the caller to
/// persist — a salt is generated once per vault and never regenerated. A
/// directory that exists without its salt file is inconsistent and fails
/// loudly with [`VaultError::CorruptVault`]; it is never auto-repaired.
/// [`VaultError::Randomness`] is possible only on a first run, when the
/// system's random source fails.
pub fn init(vault_dir_exists: bool, salt_file_present: bool) -> (r: Result<
    InitAction,
    VaultError,
>)
    ensures
        !vault_dir_exists ==> (match r {
            Ok(InitAction::CreateVault(salt)) => salt@.len() == SALT_LEN,
            Ok(InitAction::AlreadyInitialized) => false,
            Err(e) => e == VaultError::Randomness,
        }),
        vault_dir_exists && salt_file_present ==> (r matches Ok(a) && a is AlreadyInitialized),
        vault_dir_exists && !salt_file_present ==> r == Err::<InitAction, VaultError>(
            VaultError::CorruptVault,
        ),
{
    if is_first_run(vault_dir_exists) {
        match random_bytes::<SALT_LEN>() {
            Some(salt) => Ok(InitAction::CreateVault(salt)),
            None => Err(VaultError::Randomness),
        }
    } else if salt_file_present {
        Ok(InitAction::AlreadyInitialized)
    } else {
        Err(VaultError::CorruptVault)
    }
}

/// A model of the vault directory: file name to file contents.
pub type DirContents = Map<Seq<char>, Seq<u8>>;

/// Writing a file: the directory afterwards.
pub open spec fn dir_write(dir: DirContents, name: Seq<char>, data: Seq<u8>) -> DirContents {
    dir.insert(name, data)
}

/// Renaming a file over its target (an atomic replace): the directory
/// afterwards.
pub open spec fn dir_rename(dir: DirContents, from: Seq<char>, to: Seq<char>) -> DirContents {
    if dir.contains_key(from) {
        dir.remove(from).insert(to, dir[from])
    } else {
        dir
    }
}

/// The entries a reader of the vault sees: only files whose names are valid
/// entry names. The salt file and the temporary write file start with `'.'`
/// and are never entries.
pub open spec fn visible_entries(dir: DirContents) -> DirContents {
    Map::new(
        |k: Seq<char>| dir.contains_key(k) && valid_name_spec(k),
        |k: Seq<char>| dir[k],
    )
}

/// Adding an entry is atomic under write-then-rename: the new bytes go to a
/// temporary file whose name is no valid entry name, then one rename puts
/// them under the entry's name.
///
/// A crash before the temporary write changes nothing; one after it still
/// shows exactly the old entries — the target is fully absent; and after the
/// rename the target is fully present with its complete bytes and every
/// other entry untouched. No intermediate state shows a half-written entry.
pub proof fn lemma_add_is_atomic(
    dir: DirContents,
    name: Seq<char>,
    tmp: Seq<char>,
    data: Seq<u8>,
)
    requires
        valid_name_spec(name),
        !valid_name_spec(tmp),
    ensures
        visible_entries(dir_write(dir, tmp, data)) == visible_entries(dir),
        visible_entries(dir_rename(dir_write(dir, tmp, data), tmp, name)) == visible_entries(
            dir,
        ).insert(name, data),
{
    assert(visible_entries(dir_write(dir, tmp, data)) =~= visible_entries(dir));
    assert(visible_entries(dir_rename(dir_write(dir, tmp, data), tmp, name))
        =~= visible_entries(dir).insert(name, data));
}

/// Removing an entry's file removes exactly that entry from what a reader
/// sees.
pub proof fn lemma_remove_is_exact(dir: DirContents, name: Seq<char>)
    requires
        valid_name_spec(name),
    ensures
        visible_entries(dir.remove(name)) == visible_entries(dir).remove(name),
{
    assert(visible_entries(dir.remove(name)) =~= visible_entries(dir).remove(name));
}

} // verus!
