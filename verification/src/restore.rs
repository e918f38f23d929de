//! The restore state machine, decided one ledger entry at a time. The
//! caller walks the ledger in insertion order; for each entry it inspects
//! the original path, asks for a step, performs it, and — when the step is
//! a question — hands the prompt's answer back for the final decision.
use vstd::prelude::*;

use crate::errors::Error;
use crate::paths::option_view;
use crate::text::str_eq;

verus! {

/// What sits at an entry's original path when restoring.
#[derive(Debug, Clone, Copy, PartialEq, Eq, Structural)]
pub enum RestoreEntryState {
    /// Nothing is there.
    Absent,
    /// A symlink already pointing at the entry's content file.
    CorrectSymlink,
    /// Some other object: a plain file, or a symlink to somewhere else.
    OtherObject,
}

/// The confirmation collaborator's answer to an overwrite question.
#[derive(Debug, Clone, Copy, PartialEq, Eq, Structural)]
pub enum ConfirmOutcome {
    /// Overwrite the object.
    Yes,
    /// Leave the object alone and move to the next entry.
    No,
    /// The prompt was cancelled or failed.
    Cancelled,
}

/// The engine's decision for one ledger entry.
#[derive(Debug, Clone, Copy, PartialEq, Eq, Structural)]
pub enum RestoreStep {
    /// The entry is already restored; nothing to do.
    Skip,
    /// A foreign object occupies the original path: ask before overwriting.
    AskOverwrite,
    /// Place the entry: copy the content file's bytes to the original path
    /// when `copy_mode` is set, else remove any object standing there when
    /// `remove_existing` is set and create the symlink.
    Place { copy_mode: bool, remove_existing: bool },
}

/// The classification of the object at an entry's original path: absent,
/// the correct symlink (one whose target is the entry's content file), or
/// any other object.
pub open spec fn spec_classify_restore(
    exists: bool,
    is_symlink: bool,
    link_target: Option<Seq<char>>,
    backup_file: Seq<char>,
) -> RestoreEntryState {
    if !exists {
        RestoreEntryState::Absent
    } else if is_symlink && link_target == Some(backup_file) {
        RestoreEntryState::CorrectSymlink
    } else {
        RestoreEntryState::OtherObject
    }
}

/// Classifies the object at an entry's original path from the filesystem's
/// answers; `backup_file` is the canonical path of the entry's content file.
pub fn classify_restore_target(
    exists: bool,
    is_symlink: bool,
    link_target: Option<&str>,
    backup_file: &str,
) -> (r: RestoreEntryState)
    ensures
        r == spec_classify_restore(exists, is_symlink, option_view(link_target), backup_file@),
{
    if !exists {
        RestoreEntryState::Absent
    } else {
        let correct = if is_symlink {
            match link_target {
                Some(t) => str_eq(t, backup_file),
                None => false,
            }
        } else {
            false
        };
        if correct {
            RestoreEntryState::CorrectSymlink
        } else {
            RestoreEntryState::OtherObject
        }
    }
}

/// The decision for one entry: a correct symlink is left alone; an absent
/// original is placed; any other object is placed only under `overwrite`,
/// else the engine asks first.
pub open spec fn spec_restore_step(
    state: RestoreEntryState,
    copy_mode: bool,
    overwrite: bool,
) -> RestoreStep {
    match state {
        RestoreEntryState::CorrectSymlink => RestoreStep::Skip,
        RestoreEntryState::Absent => RestoreStep::Place { copy_mode, remove_existing: false },
        RestoreEntryState::OtherObject => {
            if overwrite {
                RestoreStep::Place { copy_mode, remove_existing: !copy_mode }
            } else {
                RestoreStep::AskOverwrite
            }
        },
    }
}

/// Decides the step for one ledger entry.
pub fn restore_entry_step(state: &RestoreEntryState, copy_mode: bool, overwrite: bool) -> (r:
    RestoreStep)
    ensures
        r == spec_restore_step(*state, copy_mode, overwrite),
{
    match state {
        RestoreEntryState::CorrectSymlink => RestoreStep::Skip,
        RestoreEntryState::Absent => RestoreStep::Place { copy_mode, remove_existing: false },
        RestoreEntryState::OtherObject => {
            if overwrite {
                RestoreStep::Place { copy_mode, remove_existing: !copy_mode }
            } else {
                RestoreStep::AskOverwrite
            }
        },
    }
}

/// The decision after the overwrite question was answered: consent places
/// the entry, refusal skips it, and a cancelled prompt aborts the whole
/// restore with `Interrupted`.
pub open spec fn spec_after_confirm(answer: ConfirmOutcome, copy_mode: bool) -> Result<
    RestoreStep,
    Error,
> {
    match answer {
        ConfirmOutcome::Yes => Ok(RestoreStep::Place { copy_mode, remove_existing: !copy_mode }),
        ConfirmOutcome::No => Ok(RestoreStep::Skip),
        ConfirmOutcome::Cancelled => Err(Error::Interrupted),
    }
}

/// Decides what follows the overwrite prompt for one entry.
pub fn restore_entry_after_confirm(answer: &ConfirmOutcome, copy_mode: bool) -> (r: Result<
    RestoreStep,
    Error,
>)
    ensures
        r == spec_after_confirm(*answer, copy_mode),
{
    match answer {
        ConfirmOutcome::Yes => Ok(RestoreStep::Place { copy_mode, remove_existing: !copy_mode }),
        ConfirmOutcome::No => Ok(RestoreStep::Skip),
        ConfirmOutcome::Cancelled => Err(Error::Interrupted),
    }
}

/// What placing an entry leaves at its original path: the symlink in
/// symlink mode, or a plain file holding the content file's bytes — which
/// the next classification still counts as a foreign object.
pub open spec fn state_after_place(copy_mode: bool) -> RestoreEntryState {
    if copy_mode {
        RestoreEntryState::OtherObject
    } else {
        RestoreEntryState::CorrectSymlink
    }
}

/// The state of one entry's original path after one restore pass over it,
/// with `answer` standing for the prompt's answer wherever one is asked:
/// a skipped or refused entry keeps its state, a placed one takes the
/// placed state, and a cancelled prompt leaves the state untouched.
pub open spec fn spec_restore_entry_final(
    state: RestoreEntryState,
    copy_mode: bool,
    overwrite: bool,
    answer: ConfirmOutcome,
) -> RestoreEntryState {
    match spec_restore_step(state, copy_mode, overwrite) {
        RestoreStep::Skip => state,
        RestoreStep::Place { .. } => state_after_place(copy_mode),
        RestoreStep::AskOverwrite => match spec_after_confirm(answer, copy_mode) {
            Ok(RestoreStep::Place { .. }) => state_after_place(copy_mode),
            _ => state,
        },
    }
}

/// Law: restore is idempotent. Running the restore decision twice over an
/// entry, with the same flags and the same answer to any prompt, leaves
/// the original path exactly as a single run does: the second pass either
/// skips the already-correct symlink, repeats a byte-identical copy, or
/// repeats the very answer of the first pass.
pub proof fn lemma_restore_idempotent(
    state: RestoreEntryState,
    copy_mode: bool,
    overwrite: bool,
    answer: ConfirmOutcome,
)
    ensures
        spec_restore_entry_final(
            spec_restore_entry_final(state, copy_mode, overwrite, answer),
            copy_mode,
            overwrite,
            answer,
        ) == spec_restore_entry_final(state, copy_mode, overwrite, answer),
{
}

} // verus!
