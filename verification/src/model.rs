//! A small model of the two filesystem locations one ledger entry
//! concerns — the original path and its content file — and of the effect
//! the engine's plans have on them when the caller carries them out. The
//! round-trip law of add and remove is stated and proved over this model.
use vstd::prelude::*;

verus! {

/// A filesystem object at one location, as the model sees it.
pub enum FsObject {
    /// Nothing is there.
    Missing,
    /// A regular file with these bytes.
    File(Seq<u8>),
    /// A symlink to this target.
    Link(Seq<char>),
}

/// The two locations one ledger entry concerns.
pub struct EntryWorld {
    /// The object at the original path.
    pub original: FsObject,
    /// The object at the content file's path inside the backup directory.
    pub content: FsObject,
}

/// The filesystem actions of a successful add: the original's bytes are
/// copied to the content file, the original is deleted, and a symlink to
/// the content file is placed at the original path.
pub open spec fn apply_add(w: EntryWorld, backup_file: Seq<char>) -> EntryWorld {
    EntryWorld { original: FsObject::Link(backup_file), content: w.original }
}

/// The filesystem actions of a removal plan, in order: when the plan asks
/// for it, the symlink at the original path is removed (a non-symlink is
/// left alone); when the plan restores, the content file's bytes are
/// copied back to the original path; the content file is always deleted.
pub open spec fn apply_remove_plan(
    w: EntryWorld,
    unlink_original: bool,
    restore_copy: bool,
) -> EntryWorld {
    let after_unlink = if unlink_original && w.original is Link {
        EntryWorld { original: FsObject::Missing, content: w.content }
    } else {
        w
    };
    let after_copy = if restore_copy {
        EntryWorld { original: after_unlink.content, content: after_unlink.content }
    } else {
        after_unlink
    };
    EntryWorld { original: after_copy.original, content: FsObject::Missing }
}

/// Law: add followed by a non-delete remove restores the original file's
/// bytes. Adding a regular file with bytes `b` and then removing it with
/// a restoring plan — unlink the symlink, copy the bytes back — leaves a
/// plain file with exactly the bytes `b` at the original path, and no
/// content file behind.
pub proof fn lemma_add_remove_restores_bytes(w: EntryWorld, backup_file: Seq<char>, b: Seq<u8>)
    requires
        w.original == FsObject::File(b),
    ensures
        apply_remove_plan(apply_add(w, backup_file), true, true).original == FsObject::File(b),
        apply_remove_plan(apply_add(w, backup_file), true, true).content == FsObject::Missing,
{
}

/// The filesystem actions of placing one entry during a restore: in copy
/// mode the content file's bytes are copied to the original path, else a
/// symlink to the content file replaces whatever stood there.
pub open spec fn apply_place(w: EntryWorld, copy_mode: bool, backup_file: Seq<char>) -> EntryWorld {
    if copy_mode {
        EntryWorld { original: w.content, content: w.content }
    } else {
        EntryWorld { original: FsObject::Link(backup_file), content: w.content }
    }
}

/// Law: restore is idempotent on the filesystem. Placing an entry a
/// second time — copying the same content bytes again, or re-creating
/// the same symlink — leaves exactly what a single placement leaves.
pub proof fn lemma_place_idempotent(w: EntryWorld, copy_mode: bool, backup_file: Seq<char>)
    ensures
        apply_place(apply_place(w, copy_mode, backup_file), copy_mode, backup_file) == apply_place(
            w,
            copy_mode,
            backup_file,
        ),
{
}

/// Law: a deleting remove of an added file takes the symlink and the
/// content file away and restores nothing.
pub proof fn lemma_add_remove_delete_purges(w: EntryWorld, backup_file: Seq<char>)
    ensures
        apply_remove_plan(apply_add(w, backup_file), true, false).original == FsObject::Missing,
        apply_remove_plan(apply_add(w, backup_file), true, false).content == FsObject::Missing,
{
}

} // verus!
