//! The failure taxonomy of the engine. Every operation reports one of these
//! values; `kind` classifies a failure and `message` renders the text that
//! callers show to the user.
use vstd::prelude::*;

verus! {

/// The broad classes of failure, mirroring `std::io::ErrorKind` names.
#[derive(Clone, Copy, Debug, PartialEq, Eq, Structural)]
pub enum ErrorKind {
    NotFound,
    AlreadyExists,
    Conflict,
    CorruptData,
    PermissionDenied,
    Interrupted,
    InvalidOperation,
    InvalidData,
}

/// Every failure the engine can report, one variant per distinct cause.
#[derive(Clone, Copy, Debug, PartialEq, Eq, Structural)]
pub enum Error {
    /// The named backup is not registered.
    BackupNotFound,
    /// The registry holds no backups at all.
    NoBackups,
    /// The registered backup directory no longer exists.
    DirectoryMissing,
    /// The per-backup ledger store is absent where one is required.
    LedgerMissing,
    /// The ledger holds no entries.
    LedgerEmpty,
    /// The given path has no ledger entry and no resolvable content id.
    EntryNotFound,
    /// The file to add does not exist at all.
    FileMissing,
    /// The original path is already tracked by the backup.
    FileAlreadyExists,
    /// A backup of this name is already registered.
    NameAlreadyRegistered,
    /// The directory is already registered under a different name.
    DirectoryAlreadyRegistered,
    /// Only regular files can be added, never symlinks.
    CannotAddSymlink,
    /// The original path does not exist and removal was not forced.
    PathMissing,
    /// A foreign file occupies the original path.
    ConflictingFile,
    /// The backup still has active ledger entries, so deinit is refused.
    DeinitBlocked,
    /// The registry store could not be parsed.
    CorruptConfig,
    /// The ledger store could not be parsed.
    CorruptLedger,
    /// The filesystem refused access.
    PermissionDenied,
    /// The confirmation prompt was cancelled or failed.
    Interrupted,
}

impl Error {
    /// The class a failure falls into.
    pub open spec fn spec_kind(self) -> ErrorKind {
        match self {
            Error::BackupNotFound => ErrorKind::NotFound,
            Error::NoBackups => ErrorKind::NotFound,
            Error::DirectoryMissing => ErrorKind::NotFound,
            Error::LedgerMissing => ErrorKind::NotFound,
            Error::LedgerEmpty => ErrorKind::NotFound,
            Error::EntryNotFound => ErrorKind::NotFound,
            Error::FileMissing => ErrorKind::NotFound,
            Error::FileAlreadyExists => ErrorKind::AlreadyExists,
            Error::NameAlreadyRegistered => ErrorKind::AlreadyExists,
            Error::DirectoryAlreadyRegistered => ErrorKind::AlreadyExists,
            Error::CannotAddSymlink => ErrorKind::InvalidOperation,
            Error::PathMissing => ErrorKind::InvalidData,
            Error::ConflictingFile => ErrorKind::Conflict,
            Error::DeinitBlocked => ErrorKind::Conflict,
            Error::CorruptConfig => ErrorKind::CorruptData,
            Error::CorruptLedger => ErrorKind::CorruptData,
            Error::PermissionDenied => ErrorKind::PermissionDenied,
            Error::Interrupted => ErrorKind::Interrupted,
        }
    }

    /// The class a failure falls into.
    #[verifier::when_used_as_spec(spec_kind)]
    pub fn kind(self) -> (k: ErrorKind)
        ensures
            k == self.spec_kind(),
    {
        match self {
            Error::BackupNotFound => ErrorKind::NotFound,
            Error::NoBackups => ErrorKind::NotFound,
            Error::DirectoryMissing => ErrorKind::NotFound,
            Error::LedgerMissing => ErrorKind::NotFound,
            Error::LedgerEmpty => ErrorKind::NotFound,
            Error::EntryNotFound => ErrorKind::NotFound,
            Error::FileMissing => ErrorKind::NotFound,
            Error::FileAlreadyExists => ErrorKind::AlreadyExists,
            Error::NameAlreadyRegistered => ErrorKind::AlreadyExists,
            Error::DirectoryAlreadyRegistered => ErrorKind::AlreadyExists,
            Error::CannotAddSymlink => ErrorKind::InvalidOperation,
            Error::PathMissing => ErrorKind::InvalidData,
            Error::ConflictingFile => ErrorKind::Conflict,
            Error::DeinitBlocked => ErrorKind::Conflict,
            Error::CorruptConfig => ErrorKind::CorruptData,
            Error::CorruptLedger => ErrorKind::CorruptData,
            Error::PermissionDenied => ErrorKind::PermissionDenied,
            Error::Interrupted => ErrorKind::Interrupted,
        }
    }

    /// The human-readable text for a failure.
    pub fn message(self) -> &'static str {
        match self {
            Error::BackupNotFound => "Backup not found",
            Error::NoBackups => "No backups found.",
            Error::DirectoryMissing => "Backup directory is missing",
            Error::LedgerMissing => "paths.ron is missing",
            Error::LedgerEmpty => "No files found in the backup",
            Error::EntryNotFound => "File not found in backup",
            Error::FileMissing => "No such file or directory",
            Error::FileAlreadyExists => "File already exists in backup.",
            Error::NameAlreadyRegistered => "A backup with this name already exists",
            Error::DirectoryAlreadyRegistered => "This directory is already registered under another backup name",
            Error::CannotAddSymlink => "Cannot add symlink",
            Error::PathMissing => "The existing path does not exist. To remove this entry from the backup, without restoring it, add the --delete argument.",
            Error::ConflictingFile => "A conflicting non-backup file exists in the original path. To remove this entry from the backup without restoring it, add the --delete argument.",
            Error::DeinitBlocked => "Backup still has active symlinks. deinit is prevented in this state.",
            Error::CorruptConfig => "Failed to parse config",
            Error::CorruptLedger => "Failed to parse paths.ron",
            Error::PermissionDenied => "Permission denied",
            Error::Interrupted => "Prompt was cancelled or failed",
        }
    }
}

} // verus!
