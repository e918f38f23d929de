use hushcrumbs::paths::{
    absolute_path, expand_tilde_path, path_file_name, path_join, path_parent,
    shorten_path, shorten_path_relative_home_directory,
};

#[test]
fn join_inserts_exactly_one_slash() {
    assert_eq!(path_join("/backups/t", "id"), "/backups/t/id".to_string());
    assert_eq!(path_join("/backups/t/", "id"), "/backups/t/id".to_string());
    assert_eq!(path_join("/", "id"), "/id".to_string());
}

#[test]
fn absolute_path_joins_relative_against_cwd() {
    assert_eq!(absolute_path("hi.txt", "/work"), "/work/hi.txt".to_string());
    assert_eq!(absolute_path("/tmp/hi.txt", "/work"), "/tmp/hi.txt".to_string());
}

#[test]
fn parent_and_file_name() {
    assert_eq!(path_parent("/backups/t/id").unwrap(), "/backups/t".to_string());
    assert_eq!(path_parent("/file").unwrap(), "/".to_string());
    assert!(path_parent("relative").is_none());
    assert_eq!(path_file_name("/backups/t/id"), "id".to_string());
    assert_eq!(path_file_name("plain"), "plain".to_string());
}

#[test]
fn tilde_expansion() {
    assert_eq!(
        expand_tilde_path("~/notes.txt", Some("/home/u")).unwrap(),
        "/home/u/notes.txt".to_string()
    );
    assert_eq!(
        expand_tilde_path("/etc/passwd", Some("/home/u")).unwrap(),
        "/etc/passwd".to_string()
    );
    assert_eq!(expand_tilde_path("/etc/passwd", None).unwrap(), "/etc/passwd".to_string());
    assert!(expand_tilde_path("~/notes.txt", None).is_none());
}

#[test]
fn home_relative_shortening() {
    assert_eq!(
        shorten_path_relative_home_directory("/home/u/notes.txt", "/home/u").unwrap(),
        "~/notes.txt".to_string()
    );
    assert_eq!(
        shorten_path_relative_home_directory("/home/u", "/home/u").unwrap(),
        "~/".to_string()
    );
    // A sibling directory sharing the prefix as characters is no match.
    assert!(shorten_path_relative_home_directory("/home/u2/notes.txt", "/home/u").is_none());
    assert!(shorten_path_relative_home_directory("/etc/passwd", "/home/u").is_none());
}

#[test]
fn shorten_path_prefers_canonical_home() {
    assert_eq!(
        shorten_path("/home/u/notes.txt", Some("/home/u"), Some("/users/u")),
        "~/notes.txt".to_string()
    );
    assert_eq!(
        shorten_path("/users/u/notes.txt", Some("/home/u"), Some("/users/u")),
        "~/notes.txt".to_string()
    );
    // A path below neither home comes back unchanged.
    assert_eq!(
        shorten_path("/etc/passwd", Some("/home/u"), Some("/users/u")),
        "/etc/passwd".to_string()
    );
}

#[test]
fn shorten_path_expands_leading_tilde_first() {
    assert_eq!(
        shorten_path("~/notes.txt", Some("/home/u"), Some("/home/u")),
        "~/notes.txt".to_string()
    );
}
