use hushcrumbs::errors::{Error, ErrorKind};
use hushcrumbs::ledger::Paths;
use hushcrumbs::registry::Config;

#[test]
fn registry_register_then_resolve() {
    let mut config = Config::new();
    assert!(config.update_config("test", "/backups/t").is_ok());
    let resolved = config.get_backup_path("test");
    assert_eq!(resolved.unwrap(), "/backups/t".to_string());
}

#[test]
fn registry_resolve_unknown_fails_not_found() {
    let config = Config::new();
    let r = config.get_backup_path("test");
    assert_eq!(r.unwrap_err(), Error::BackupNotFound);
    assert_eq!(Error::BackupNotFound.kind(), ErrorKind::NotFound);
}

#[test]
fn registry_unregister_then_resolve_fails() {
    let mut config = Config::new();
    config.update_config("test", "/backups/t").unwrap();
    config.deinit_backup("test", None).unwrap();
    assert_eq!(config.get_backup_path("test").unwrap_err(), Error::BackupNotFound);
}

#[test]
fn registry_duplicate_name_fails() {
    let mut config = Config::new();
    config.update_config("test", "/backups/t").unwrap();
    let r = config.update_config("test", "/backups/t2");
    assert_eq!(r.unwrap_err(), Error::NameAlreadyRegistered);
    assert_eq!(Error::NameAlreadyRegistered.kind(), ErrorKind::AlreadyExists);
    // The first registration is untouched.
    assert_eq!(config.get_backup_path("test").unwrap(), "/backups/t".to_string());
}

#[test]
fn registry_duplicate_directory_fails() {
    let mut config = Config::new();
    config.update_config("test", "/backups/t").unwrap();
    let r = config.update_config("test2", "/backups/t");
    assert_eq!(r.unwrap_err(), Error::DirectoryAlreadyRegistered);
    assert_eq!(Error::DirectoryAlreadyRegistered.kind(), ErrorKind::AlreadyExists);
}

#[test]
fn registry_listing_order_is_insertion_order() {
    let mut config = Config::new();
    config.update_config("one", "/b/t1").unwrap();
    config.update_config("two", "/b/t2").unwrap();
    config.update_config("three", "/b/t3").unwrap();
    let names = config.get_backups().unwrap();
    assert_eq!(names, vec!["one".to_string(), "two".to_string(), "three".to_string()]);
    let rows = config.list_backups().unwrap();
    assert_eq!(
        rows,
        vec![
            ("one".to_string(), "/b/t1".to_string()),
            ("two".to_string(), "/b/t2".to_string()),
            ("three".to_string(), "/b/t3".to_string()),
        ]
    );
}

#[test]
fn registry_empty_listing_fails_not_found() {
    let config = Config::new();
    assert_eq!(config.get_backups().unwrap_err(), Error::NoBackups);
    assert_eq!(config.list_backups().unwrap_err(), Error::NoBackups);
    assert_eq!(Error::NoBackups.kind(), ErrorKind::NotFound);
    assert_eq!(Error::NoBackups.message(), "No backups found.");
}

#[test]
fn deinit_with_active_entries_is_refused() {
    let mut config = Config::new();
    config.update_config("three", "/b/t3").unwrap();
    let mut files = Paths::new();
    files.insert("/home/u/test.txt", "id0").unwrap();
    let r = config.deinit_backup("three", Some(&files));
    assert_eq!(r.unwrap_err(), Error::DeinitBlocked);
    assert_eq!(Error::DeinitBlocked.kind(), ErrorKind::Conflict);
    // Still registered.
    assert_eq!(config.get_backup_path("three").unwrap(), "/b/t3".to_string());
    // After the entry is removed, deinit succeeds and the backup is gone.
    files.remove("/home/u/test.txt").unwrap();
    config.deinit_backup("three", Some(&files)).unwrap();
    assert_eq!(config.get_backups().unwrap_err(), Error::NoBackups);
}

#[test]
fn deinit_unknown_backup_fails_not_found() {
    let mut config = Config::new();
    let r = config.deinit_backup("missing", None);
    assert_eq!(r.unwrap_err(), Error::BackupNotFound);
}

#[test]
fn deinit_keeps_order_of_remaining_backups() {
    let mut config = Config::new();
    config.update_config("one", "/b/t1").unwrap();
    config.update_config("two", "/b/t2").unwrap();
    config.update_config("three", "/b/t3").unwrap();
    config.deinit_backup("two", None).unwrap();
    let names = config.get_backups().unwrap();
    assert_eq!(names, vec!["one".to_string(), "three".to_string()]);
}

#[test]
fn registry_roundtrips_through_pairs() {
    let mut config = Config::new();
    config.update_config("one", "/b/t1").unwrap();
    config.update_config("two", "/b/t2").unwrap();
    let pairs = config.to_pairs();
    let rebuilt = Config::from_pairs(pairs).unwrap();
    assert_eq!(rebuilt.get_backups().unwrap(), vec!["one".to_string(), "two".to_string()]);
}

#[test]
fn registry_from_pairs_rejects_duplicates() {
    let pairs = vec![
        ("one".to_string(), "/b/t1".to_string()),
        ("one".to_string(), "/b/t2".to_string()),
    ];
    assert_eq!(Config::from_pairs(pairs).unwrap_err(), Error::CorruptConfig);
    assert_eq!(Error::CorruptConfig.kind(), ErrorKind::CorruptData);
    assert_eq!(Error::CorruptConfig.message(), "Failed to parse config");
}
