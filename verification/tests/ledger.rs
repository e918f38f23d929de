use hushcrumbs::errors::{Error, ErrorKind};
use hushcrumbs::ledger::{check_if_file_exists_in_backup, reverse_files_map, update_paths_ron, Paths};

#[test]
fn ledger_insert_and_get() {
    let mut files = Paths::new();
    assert_eq!(files.len(), 0);
    files.insert("/home/u/hi.txt", "id-hi").unwrap();
    assert_eq!(files.len(), 1);
    assert_eq!(files.get("/home/u/hi.txt").unwrap(), "id-hi".to_string());
    assert!(files.get("/home/u/hello.txt").is_none());
}

#[test]
fn ledger_insert_duplicate_fails_already_exists() {
    let mut files = Paths::new();
    files.insert("/home/u/hi.txt", "id-hi").unwrap();
    let r = files.insert("/home/u/hi.txt", "id-other");
    assert_eq!(r.unwrap_err(), Error::FileAlreadyExists);
    assert_eq!(Error::FileAlreadyExists.kind(), ErrorKind::AlreadyExists);
    // The recorded id is unchanged.
    assert_eq!(files.get("/home/u/hi.txt").unwrap(), "id-hi".to_string());
}

#[test]
fn ledger_remove_returns_content_id() {
    let mut files = Paths::new();
    files.insert("/home/u/hi.txt", "id-hi").unwrap();
    let id = files.remove("/home/u/hi.txt").unwrap();
    assert_eq!(id, "id-hi".to_string());
    assert_eq!(files.len(), 0);
    assert!(!files.contains_key("/home/u/hi.txt"));
}

#[test]
fn ledger_remove_unknown_fails_not_found() {
    let mut files = Paths::new();
    let r = files.remove("/home/u/hi.txt");
    assert_eq!(r.unwrap_err(), Error::EntryNotFound);
    assert_eq!(Error::EntryNotFound.kind(), ErrorKind::NotFound);
    assert_eq!(Error::EntryNotFound.message(), "File not found in backup");
}

#[test]
fn ledger_listing_order_is_insertion_order() {
    let mut files = Paths::new();
    files.insert("/a", "ia").unwrap();
    files.insert("/b", "ib").unwrap();
    files.insert("/c", "ic").unwrap();
    assert_eq!(files.keys(), vec!["/a".to_string(), "/b".to_string(), "/c".to_string()]);
}

#[test]
fn ledger_remove_keeps_order_of_rest() {
    let mut files = Paths::new();
    files.insert("/a", "ia").unwrap();
    files.insert("/b", "ib").unwrap();
    files.insert("/c", "ic").unwrap();
    files.remove("/b").unwrap();
    assert_eq!(files.keys(), vec!["/a".to_string(), "/c".to_string()]);
}

#[test]
fn ledger_readd_after_remove_succeeds() {
    let mut files = Paths::new();
    files.insert("/a", "ia").unwrap();
    files.remove("/a").unwrap();
    files.insert("/a", "ia").unwrap();
    assert_eq!(files.get("/a").unwrap(), "ia".to_string());
}

#[test]
fn ledger_reverse_lookup_by_content_id() {
    let mut files = Paths::new();
    files.insert("/a", "ia").unwrap();
    files.insert("/b", "ib").unwrap();
    assert_eq!(files.lookup_by_content_id("ib").unwrap(), "/b".to_string());
    assert!(files.lookup_by_content_id("nowhere").is_none());
    assert!(files.contains_value("ia"));
    assert!(!files.contains_value("nowhere"));
}

#[test]
fn ledger_reverse_files_map_swaps_pairs() {
    let mut files = Paths::new();
    files.insert("/a", "ia").unwrap();
    files.insert("/b", "ib").unwrap();
    let reversed = reverse_files_map(&files);
    assert_eq!(reversed.get("ia").unwrap(), "/a".to_string());
    assert_eq!(reversed.get("ib").unwrap(), "/b".to_string());
    assert_eq!(reversed.len(), 2);
}

#[test]
fn ledger_membership_check() {
    let mut files = Paths::new();
    files.insert("/home/u/hi.txt", "id-hi").unwrap();
    assert!(check_if_file_exists_in_backup(&files, "/home/u/hi.txt"));
    assert!(!check_if_file_exists_in_backup(&files, "/home/u/other.txt"));
}

#[test]
fn ledger_remove_backup_entry_ignores_absent() {
    let mut files = Paths::new();
    files.insert("/a", "ia").unwrap();
    files.remove_backup_entry("/missing");
    assert_eq!(files.len(), 1);
    files.remove_backup_entry("/a");
    assert_eq!(files.len(), 0);
}

#[test]
fn ledger_destroy_backup_file_hands_out_id() {
    let mut files = Paths::new();
    files.insert("/a", "ia").unwrap();
    assert_eq!(files.destroy_backup_file("/a").unwrap(), "ia".to_string());
    assert_eq!(files.destroy_backup_file("/a").unwrap_err(), Error::EntryNotFound);
}

#[test]
fn ledger_update_records_backup_file_name() {
    let mut files = Paths::new();
    update_paths_ron(&mut files, "/home/u/hi.txt", "/backups/t/id-hi").unwrap();
    assert_eq!(files.get("/home/u/hi.txt").unwrap(), "id-hi".to_string());
    let r = update_paths_ron(&mut files, "/home/u/hi.txt", "/backups/t/id-other");
    assert_eq!(r.unwrap_err(), Error::FileAlreadyExists);
}

#[test]
fn ledger_roundtrips_through_pairs() {
    let mut files = Paths::new();
    files.insert("/a", "ia").unwrap();
    files.insert("/b", "ib").unwrap();
    let pairs = files.to_pairs();
    assert_eq!(
        pairs,
        vec![("/a".to_string(), "ia".to_string()), ("/b".to_string(), "ib".to_string())]
    );
    let rebuilt = Paths::from_pairs(pairs).unwrap();
    assert_eq!(rebuilt.keys(), vec!["/a".to_string(), "/b".to_string()]);
}

#[test]
fn ledger_from_pairs_rejects_duplicate_keys() {
    let pairs = vec![
        ("/a".to_string(), "ia".to_string()),
        ("/a".to_string(), "ib".to_string()),
    ];
    assert_eq!(Paths::from_pairs(pairs).unwrap_err(), Error::CorruptLedger);
    assert_eq!(Error::CorruptLedger.message(), "Failed to parse paths.ron");
}
