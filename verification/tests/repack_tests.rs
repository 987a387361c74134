use comic_repacker::repack::{
    cbz_file_name, extraction_error, scratch_dir, scratch_dir_for, zip_entry_name,
};

#[test]
fn entry_names_use_forward_slashes() {
    assert_eq!(zip_entry_name("a.jpg"), "a.jpg");
    assert_eq!(zip_entry_name("sub\\b.png"), "sub/b.png");
    assert_eq!(zip_entry_name("sub/deep\\er\\c.gif"), "sub/deep/er/c.gif");
    assert_eq!(zip_entry_name(""), "");
}

#[test]
fn archive_is_named_after_the_stem() {
    assert_eq!(cbz_file_name("Issue 01"), "Issue 01.cbz");
    assert_eq!(cbz_file_name(""), ".cbz");
}

#[test]
fn extraction_failure_carries_the_tool_output() {
    assert_eq!(extraction_error("ERROR: Wrong password"), "Extraction failed: ERROR: Wrong password");
}

#[test]
fn scratch_directories_are_distinct() {
    assert_eq!(scratch_dir_for("/tmp", "abc"), "/tmp/comics-scanner-conversion/abc");
    let first = scratch_dir("/tmp");
    let second = scratch_dir("/tmp");
    let prefix = "/tmp/comics-scanner-conversion/";
    assert!(first.starts_with(prefix));
    assert!(second.starts_with(prefix));
    assert_eq!(first.chars().count(), prefix.len() + 36);
    assert_eq!(second.chars().count(), prefix.len() + 36);
    assert_ne!(first, second);
    let token = &first[prefix.len()..];
    assert!(token.chars().all(|c| c == '-' || c.is_ascii_hexdigit()));
}
