use hushcrumbs::content::file_hash;
use hushcrumbs::engine::{add_to_backup, classify_original, OriginalPathState};
use hushcrumbs::errors::{Error, ErrorKind};
use hushcrumbs::ledger::Paths;

const HI_ID: &str = "NrOujBR4b83YuFWMoIbwOTuXkjtuf_Uc37r-446qd_o";

#[test]
fn add_regular_file_records_entry() {
    let mut files = Paths::new();
    let out = add_to_backup(
        &mut files,
        &OriginalPathState::RegularFile,
        "/tmp/hi.txt",
        Some("/tmp/hi.txt"),
        "/backups/t",
    )
    .unwrap();
    assert_eq!(out.content_id, HI_ID.to_string());
    assert_eq!(out.backup_file, format!("/backups/t/{}", HI_ID));
    assert_eq!(files.get("/tmp/hi.txt").unwrap(), HI_ID.to_string());
    assert_eq!(files.len(), 1);
}

#[test]
fn add_twice_fails_already_exists() {
    let mut files = Paths::new();
    add_to_backup(
        &mut files,
        &OriginalPathState::RegularFile,
        "/tmp/hi.txt",
        Some("/tmp/hi.txt"),
        "/backups/t",
    )
    .unwrap();
    // After the add, the original path is a symlink into the store.
    let state = OriginalPathState::SymlinkToKnownBackup { content_id: HI_ID.to_string() };
    let r = add_to_backup(&mut files, &state, "/tmp/hi.txt", None, "/backups/t");
    assert_eq!(r.unwrap_err(), Error::FileAlreadyExists);
    assert_eq!(Error::FileAlreadyExists.kind(), ErrorKind::AlreadyExists);
    assert_eq!(files.len(), 1);
}

#[test]
fn add_tracked_regular_file_fails_already_exists() {
    // A tracked path occupied by a plain file again (say after a copying
    // restore) is still refused.
    let mut files = Paths::new();
    files.insert("/tmp/hi.txt", HI_ID).unwrap();
    let r = add_to_backup(
        &mut files,
        &OriginalPathState::RegularFile,
        "/tmp/hi.txt",
        Some("/tmp/hi.txt"),
        "/backups/t",
    );
    assert_eq!(r.unwrap_err(), Error::FileAlreadyExists);
}

#[test]
fn add_symlink_fails_invalid_operation() {
    let mut files = Paths::new();
    let r = add_to_backup(
        &mut files,
        &OriginalPathState::SymlinkToOther,
        "/tmp/link.txt",
        Some("/tmp/other.txt"),
        "/backups/t",
    );
    assert_eq!(r.unwrap_err(), Error::CannotAddSymlink);
    assert_eq!(Error::CannotAddSymlink.kind(), ErrorKind::InvalidOperation);
    assert_eq!(Error::CannotAddSymlink.message(), "Cannot add symlink");
    assert_eq!(files.len(), 0);
}

#[test]
fn add_broken_symlink_fails_invalid_operation() {
    let mut files = Paths::new();
    let r = add_to_backup(
        &mut files,
        &OriginalPathState::SymlinkBroken,
        "/tmp/link.txt",
        None,
        "/backups/t",
    );
    assert_eq!(r.unwrap_err(), Error::CannotAddSymlink);
}

#[test]
fn add_missing_file_fails_not_found() {
    let mut files = Paths::new();
    let r = add_to_backup(&mut files, &OriginalPathState::Absent, "/tmp/gone.txt", None, "/backups/t");
    assert_eq!(r.unwrap_err(), Error::FileMissing);
    assert_eq!(Error::FileMissing.kind(), ErrorKind::NotFound);
}

#[test]
fn add_uses_path_derived_content_id() {
    // The id is derived from the canonical path, not from file bytes, so
    // a re-add after a removal reuses the same slot.
    let mut files = Paths::new();
    let out1 = add_to_backup(
        &mut files,
        &OriginalPathState::RegularFile,
        "/tmp/hi.txt",
        Some("/tmp/hi.txt"),
        "/backups/t",
    )
    .unwrap();
    files.remove("/tmp/hi.txt").unwrap();
    let out2 = add_to_backup(
        &mut files,
        &OriginalPathState::RegularFile,
        "/tmp/hi.txt",
        Some("/tmp/hi.txt"),
        "/backups/t",
    )
    .unwrap();
    assert_eq!(out1.content_id, out2.content_id);
    assert_eq!(out1.content_id, file_hash("/tmp/hi.txt"));
}

#[test]
fn classify_absent_and_regular() {
    let files = Paths::new();
    let s = classify_original(&files, "/backups/t", false, false, None);
    assert!(matches!(s, OriginalPathState::Absent));
    let s = classify_original(&files, "/backups/t", true, false, None);
    assert!(matches!(s, OriginalPathState::RegularFile));
}

#[test]
fn classify_symlinks() {
    let mut files = Paths::new();
    files.insert("/tmp/hi.txt", HI_ID).unwrap();
    // A symlink to the tracked content file is recognised.
    let target = format!("/backups/t/{}", HI_ID);
    let s = classify_original(&files, "/backups/t", true, true, Some(target.as_str()));
    match s {
        OriginalPathState::SymlinkToKnownBackup { content_id } => {
            assert_eq!(content_id, HI_ID.to_string());
        }
        other => panic!("expected a known-backup symlink, got {:?}", other),
    }
    // A symlink elsewhere is not.
    let s = classify_original(&files, "/backups/t", true, true, Some("/tmp/other.txt"));
    assert!(matches!(s, OriginalPathState::SymlinkToOther));
    // A symlink into the store with an unknown id is not either.
    let s = classify_original(&files, "/backups/t", true, true, Some("/backups/t/unknown"));
    assert!(matches!(s, OriginalPathState::SymlinkToOther));
    // An unreadable target means a broken symlink.
    let s = classify_original(&files, "/backups/t", true, true, None);
    assert!(matches!(s, OriginalPathState::SymlinkBroken));
}
