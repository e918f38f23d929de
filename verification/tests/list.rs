use hushcrumbs::engine::{add_to_backup, OriginalPathState};
use hushcrumbs::errors::{Error, ErrorKind};
use hushcrumbs::ledger::Paths;
use hushcrumbs::list::{get_backup_files, list_backup_files};
use hushcrumbs::registry::Config;

#[test]
fn test_list_files() {
    // init test ./t; add test hi.txt; add test hello.txt; the listing
    // shows both absolute paths, in insertion order, under the backup name.
    let mut config = Config::new();
    config.update_config("test", "/work/t").unwrap();
    let mut files = Paths::new();
    for name in ["hi.txt", "hello.txt"] {
        let abs = format!("/work/{}", name);
        add_to_backup(
            &mut files,
            &OriginalPathState::RegularFile,
            abs.as_str(),
            Some(abs.as_str()),
            "/work/t",
        )
        .unwrap();
    }
    assert_eq!(config.get_backups().unwrap(), vec!["test".to_string()]);
    let listing = list_backup_files(&files, None).unwrap();
    assert_eq!(listing, vec!["/work/hi.txt".to_string(), "/work/hello.txt".to_string()]);
}

#[test]
fn listing_order_is_insertion_order() {
    let mut files = Paths::new();
    files.insert("/a", "ia").unwrap();
    files.insert("/b", "ib").unwrap();
    files.insert("/c", "ic").unwrap();
    let names = get_backup_files(&files).unwrap();
    assert_eq!(names, vec!["/a".to_string(), "/b".to_string(), "/c".to_string()]);
}

#[test]
fn empty_ledger_lists_nothing() {
    let files = Paths::new();
    let r = get_backup_files(&files);
    assert_eq!(r.unwrap_err(), Error::LedgerEmpty);
    assert_eq!(Error::LedgerEmpty.kind(), ErrorKind::NotFound);
    assert_eq!(Error::LedgerEmpty.message(), "No files found in the backup");
    assert_eq!(list_backup_files(&files, None).unwrap_err(), Error::LedgerEmpty);
}

#[test]
fn listing_expands_tilde_keys() {
    let mut files = Paths::new();
    files.insert("~/notes.txt", "in").unwrap();
    files.insert("/etc/hosts", "ih").unwrap();
    let listing = list_backup_files(&files, Some("/home/u")).unwrap();
    assert_eq!(listing, vec!["/home/u/notes.txt".to_string(), "/etc/hosts".to_string()]);
    // Without a home directory the key stands for itself.
    let listing = list_backup_files(&files, None).unwrap();
    assert_eq!(listing, vec!["~/notes.txt".to_string(), "/etc/hosts".to_string()]);
}
