//! The backup engine's state machine. Every operation first classifies the
//! filesystem object found at an original path, then decides the legal
//! transition. The decisions here are pure: the caller inspects the
//! filesystem, hands the findings in as plain values, receives a plan, and
//! performs the filesystem actions the plan names.
use vstd::prelude::*;

use crate::content::{content_id_of, file_hash};
use crate::errors::Error;
use crate::ledger::{value_in, Paths};
use crate::paths::{option_view, path_file_name, path_join, spec_file_name, spec_parent, spec_path_join};
use crate::store::{assoc_has, assoc_index, lemma_assoc_index_unique};
use crate::text::str_eq;

verus! {

/// What sits at an original path, as far as the engine is concerned.
/// Computed afresh for every operation from the filesystem's answers.
#[derive(Debug, Clone)]
pub enum OriginalPathState {
    /// No filesystem object at all.
    Absent,
    /// A non-symlink object; only these can be added.
    RegularFile,
    /// A symlink into the backup store, to a content file the ledger knows.
    SymlinkToKnownBackup { content_id: String },
    /// A symlink to anywhere else.
    SymlinkToOther,
    /// A symlink whose target cannot be resolved.
    SymlinkBroken,
}

/// A symlink target `t` points into the backup store: its directory is the
/// backup directory and some ledger entry stores its bytes under `t`'s
/// file name.
pub open spec fn target_in_store(
    files: Seq<crate::store::Entry>,
    backup_dir: Seq<char>,
    t: Seq<char>,
) -> bool {
    spec_parent(t) == Some(backup_dir) && value_in(files, spec_file_name(t))
}

/// Classifies the object at an original path from the filesystem's answers:
/// whether anything is there (`lstat_found`), whether it is a symlink, and
/// the symlink's target when it has a readable one.
pub fn classify_original(
    files: &Paths,
    backup_dir: &str,
    lstat_found: bool,
    is_symlink: bool,
    link_target: Option<&str>,
) -> (r: OriginalPathState)
    ensures
        match r {
            OriginalPathState::Absent => !lstat_found,
            OriginalPathState::RegularFile => lstat_found && !is_symlink,
            OriginalPathState::SymlinkBroken => lstat_found && is_symlink && link_target is None,
            OriginalPathState::SymlinkToOther => lstat_found && is_symlink && (match link_target {
                Some(t) => !target_in_store(files@, backup_dir@, t@),
                None => false,
            }),
            OriginalPathState::SymlinkToKnownBackup { content_id } => lstat_found && is_symlink
                && (match link_target {
                Some(t) => target_in_store(files@, backup_dir@, t@) && content_id@
                    == spec_file_name(t@),
                None => false,
            }),
        },
{
    if !lstat_found {
        return OriginalPathState::Absent;
    }
    if !is_symlink {
        return OriginalPathState::RegularFile;
    }
    match link_target {
        None => OriginalPathState::SymlinkBroken,
        Some(t) => {
            let parent = crate::paths::path_parent(t);
            let name = path_file_name(t);
            let in_store = match parent {
                Some(par) => str_eq(par.as_str(), backup_dir) && files.contains_value(
                    name.as_str(),
                ),
                None => false,
            };
            if in_store {
                OriginalPathState::SymlinkToKnownBackup { content_id: name }
            } else {
                OriginalPathState::SymlinkToOther
            }
        },
    }
}

/// What the caller must do after a successful `add_to_backup`: copy the
/// original file's bytes to `backup_file`, delete the original, and place
/// a symlink to `backup_file` at the canonical original path.
#[derive(Debug)]
pub struct AddOutcome {
    /// The id under which the file's bytes are stored.
    pub content_id: String,
    /// The full path of the content file inside the backup directory.
    pub backup_file: String,
}

/// The path is already tracked, under its absolute or canonical form, or
/// the object there is a symlink into the store the ledger knows.
pub open spec fn add_conflict(
    files: Seq<crate::store::Entry>,
    state: OriginalPathState,
    abs_path: Seq<char>,
    canonical_path: Option<Seq<char>>,
) -> bool {
    ||| state is SymlinkToKnownBackup
    ||| assoc_has(files, abs_path)
    ||| (match canonical_path {
        Some(c) => assoc_has(files, c),
        None => false,
    })
}

/// Decides and records the addition of the file at an original path.
///
/// `abs_path` is the absolute (unresolved) form of the given path, and
/// `canonical_path` its canonicalized form where one exists; a regular
/// file always has one. On success the entry is appended to the ledger
/// and the returned plan names the content file the caller must create
/// before placing the symlink. Only regular files are accepted: a path
/// that is already tracked fails with `AlreadyExists`, any symlink fails
/// with `InvalidOperation`, and a missing file fails with `NotFound`.
pub fn add_to_backup(
    files: &mut Paths,
    state: &OriginalPathState,
    abs_path: &str,
    canonical_path: Option<&str>,
    backup_dir: &str,
) -> (r: Result<AddOutcome, Error>)
    requires
        old(files).wf(),
        state is RegularFile ==> canonical_path is Some,
    ensures
        final(files).wf(),
        match r {
            Ok(out) => {
                &&& state is RegularFile
                &&& !add_conflict(old(files)@, *state, abs_path@, option_view(canonical_path))
                &&& out.content_id@ == content_id_of(canonical_path->Some_0@)
                &&& out.backup_file@ == spec_path_join(backup_dir@, out.content_id@)
                &&& final(files)@ =~= old(files)@.push(
                    (canonical_path->Some_0@, out.content_id@),
                )
            },
            Err(e) => final(files)@ =~= old(files)@ && ((e == Error::FileMissing
                && state is Absent) || (e == Error::FileAlreadyExists && !(state is Absent)
                && add_conflict(old(files)@, *state, abs_path@, option_view(canonical_path))) || (e
                == Error::CannotAddSymlink && (state is SymlinkToOther
                || state is SymlinkBroken) && !add_conflict(
                old(files)@,
                *state,
                abs_path@,
                option_view(canonical_path),
            ))),
        },
{
    match state {
        OriginalPathState::Absent => {
            return Err(Error::FileMissing);
        },
        _ => {},
    }
    let mut conflict = match state {
        OriginalPathState::SymlinkToKnownBackup { content_id } => true,
        _ => false,
    };
    if !conflict {
        conflict = files.contains_key(abs_path);
    }
    if !conflict {
        conflict = match canonical_path {
            Some(c) => files.contains_key(c),
            None => false,
        };
    }
    if conflict {
        return Err(Error::FileAlreadyExists);
    }
    match state {
        OriginalPathState::RegularFile => {
            let canonical = match canonical_path {
                Some(c) => c,
                None => {
                    proof {
                        assert(false);
                    }
                    abs_path
                },
            };
            let content_id = file_hash(canonical);
            let backup_file = path_join(backup_dir, content_id.as_str());
            match files.insert(canonical, content_id.as_str()) {
                Ok(u) => {},
                Err(e) => {
                    proof {
                        assert(false);
                    }
                },
            }
            Ok(AddOutcome { content_id, backup_file })
        },
        _ => Err(Error::CannotAddSymlink),
    }
}

/// What the caller must do after a successful `remove_from_backup`, in
/// this order: when `unlink_original` is set, remove the object at
/// `original_path` if it is a symlink; when `restore_copy` is set, copy
/// the content file's bytes back to `original_path`; finally delete the
/// content file named `content_id` inside the backup directory. The
/// ledger entry itself has already been erased.
#[derive(Debug)]
pub struct RemovePlan {
    /// The recorded original location the plan acts on.
    pub original_path: String,
    /// The id naming the content file to delete.
    pub content_id: String,
    /// Remove the symlink at the original location first.
    pub unlink_original: bool,
    /// Then restore the original as a plain file by copying the bytes back.
    pub restore_copy: bool,
}

/// Decides the removal of a path from the backup. The path may be given
/// as the original location or as a path inside the backup directory;
/// `canonical_path` is its canonicalized form, absent when the object no
/// longer exists, and `abs_path` its absolute unresolved form. Four cases:
/// a vanished object is purged only under `delete`; the recorded symlink
/// (whose canonical form lies inside the backup directory) is unlinked,
/// and without `delete` the original file is restored by copying; a
/// foreign object at the original path is left alone, failing with
/// `Conflict` unless `delete` purges the entry. A path the ledger does
/// not know fails with `NotFound`. Every successful removal erases the
/// ledger entry and has the caller delete the content file.
pub fn remove_from_backup(
    files: &mut Paths,
    backup_dir: &str,
    abs_path: &str,
    canonical_path: Option<&str>,
    delete: bool,
) -> (r: Result<RemovePlan, Error>)
    requires
        old(files).wf(),
    ensures
        final(files).wf(),
        match r {
            Ok(plan) => {
                &&& assoc_has(old(files)@, plan.original_path@)
                &&& old(files)@[assoc_index(old(files)@, plan.original_path@)] == (
                plan.original_path@,
                plan.content_id@,
                )
                &&& final(files)@ =~= old(files)@.remove(
                    assoc_index(old(files)@, plan.original_path@),
                )
                &&& (match canonical_path {
                    Some(c) => {
                        if spec_parent(c@) == Some(backup_dir@) {
                            &&& plan.content_id@ == spec_file_name(c@)
                            &&& plan.unlink_original
                            &&& plan.restore_copy == !delete
                        } else {
                            &&& delete
                            &&& plan.original_path@ == abs_path@
                            &&& !plan.unlink_original
                            &&& !plan.restore_copy
                        }
                    },
                    None => {
                        &&& delete
                        &&& plan.original_path@ == abs_path@
                        &&& !plan.unlink_original
                        &&& !plan.restore_copy
                    },
                })
            },
            Err(e) => final(files)@ =~= old(files)@ && (match e {
                Error::PathMissing => canonical_path is None && !delete,
                Error::ConflictingFile => !delete && (match canonical_path {
                    Some(c) => spec_parent(c@) != Some(backup_dir@),
                    None => false,
                }),
                Error::EntryNotFound => match canonical_path {
                    None => delete && !assoc_has(old(files)@, abs_path@),
                    Some(c) => {
                        if spec_parent(c@) == Some(backup_dir@) {
                            !value_in(old(files)@, spec_file_name(c@))
                        } else {
                            delete && !assoc_has(old(files)@, abs_path@)
                        }
                    },
                },
                _ => false,
            }),
        },
{
    let canonical = match canonical_path {
        None => {
            if !delete {
                return Err(Error::PathMissing);
            }
            let id = match files.remove(abs_path) {
                Ok(id) => id,
                Err(e) => {
                    return Err(Error::EntryNotFound);
                },
            };
            return Ok(
                RemovePlan {
                    original_path: abs_path.to_owned(),
                    content_id: id,
                    unlink_original: false,
                    restore_copy: false,
                },
            );
        },
        Some(c) => c,
    };
    let parent = crate::paths::path_parent(canonical);
    let inside_store = match parent {
        Some(par) => str_eq(par.as_str(), backup_dir),
        None => false,
    };
    if inside_store {
        let id = path_file_name(canonical);
        match files.lookup_by_content_id(id.as_str()) {
            None => Err(Error::EntryNotFound),
            Some(original) => {
                proof {
                    let w = choose|i: int|
                        0 <= i < files@.len() && files@[i] == (original@, id@);
                    lemma_assoc_index_unique(files@, original@, w);
                }
                match files.remove(original.as_str()) {
                    Ok(removed_id) => {
                        Ok(
                            RemovePlan {
                                original_path: original,
                                content_id: removed_id,
                                unlink_original: true,
                                restore_copy: !delete,
                            },
                        )
                    },
                    Err(e) => {
                        proof {
                            assert(false);
                        }
                        Err(Error::EntryNotFound)
                    },
                }
            },
        }
    } else if delete {
        let id = match files.remove(abs_path) {
            Ok(id) => id,
            Err(e) => {
                return Err(Error::EntryNotFound);
            },
        };
        Ok(
            RemovePlan {
                original_path: abs_path.to_owned(),
                content_id: id,
                unlink_original: false,
                restore_copy: false,
            },
        )
    } else {
        Err(Error::ConflictingFile)
    }
}

/// Law: adding the same path twice without an intervening removal fails
/// the second time with `AlreadyExists`. A successful add appends the
/// canonical path to the ledger, and a tracked path is an add conflict
/// whatever the filesystem later shows at it, so by the contract of
/// `add_to_backup` the second call can only answer `FileAlreadyExists`.
pub proof fn lemma_add_twice_conflicts(
    prior: Seq<crate::store::Entry>,
    content_id: Seq<char>,
    canonical: Seq<char>,
    later_state: OriginalPathState,
    later_abs: Seq<char>,
)
    ensures
        add_conflict(prior.push((canonical, content_id)), later_state, later_abs, Some(canonical)),
{
    let s = prior.push((canonical, content_id));
    assert(s[prior.len() as int].0 == canonical);
}

} // verus!
