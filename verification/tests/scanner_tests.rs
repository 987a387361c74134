use comic_repacker::listing::ArchiveInfo;
use comic_repacker::scanner::{
    is_candidate, is_hidden, ScanAction, ScanResult, ScanStatus, Scanner, WalkEntry,
};

fn file(name: &str) -> WalkEntry {
    WalkEntry::Found { name: name.to_string(), is_file: true }
}

fn dir(name: &str) -> WalkEntry {
    WalkEntry::Found { name: name.to_string(), is_file: false }
}

fn info(reason: Option<&str>) -> ArchiveInfo {
    ArchiveInfo {
        file_type: "Rar".to_string(),
        is_solid: reason.is_some(),
        is_encrypted: false,
        image_count: 3,
        unsupported_reason: reason.map(|r| r.to_string()),
    }
}

#[test]
fn hidden_names_begin_with_a_dot() {
    assert!(is_hidden(".git"));
    assert!(is_hidden(".hidden.cbz"));
    assert!(is_hidden("."));
    assert!(!is_hidden("a.cbz"));
    assert!(!is_hidden(""));
}

#[test]
fn candidates_have_an_archive_extension() {
    for name in ["a.cbr", "a.CBZ", "b.c.Rar", "x.zip", "..zip"] {
        assert!(is_candidate(name), "{}", name);
    }
    for name in [".cbr", "cbr", "a.cbr.txt", "a.7z", "a.zipx", "", "azip", "a.zi"] {
        assert!(!is_candidate(name), "{}", name);
    }
}

#[test]
fn uncancelled_scan_counts_every_candidate() {
    let walk = vec![
        dir("comics"),
        file("a.cbr"),
        file("notes.txt"),
        WalkEntry::Unreadable,
        dir("b.zip"),
        file("b.ZIP"),
        file(".c.rar"),
        file("d.rar"),
    ];
    let mut scanner = Scanner::new();
    let mut actions = Vec::new();
    for entry in &walk {
        actions.push(scanner.step(false, entry));
    }
    assert_eq!(
        actions,
        vec![
            ScanAction::Skip,
            ScanAction::Inspect(1),
            ScanAction::Skip,
            ScanAction::Skip,
            ScanAction::Skip,
            ScanAction::Inspect(2),
            ScanAction::Prune,
            ScanAction::Inspect(3),
        ]
    );
    assert_eq!(scanner.found(), 3);
}

#[test]
fn cancellation_before_the_first_entry_stops_the_scan() {
    let mut scanner = Scanner::new();
    assert_eq!(scanner.step(true, &file(".hidden.cbz")), ScanAction::Prune);
    assert_eq!(scanner.step(true, &file("a.cbz")), ScanAction::Stop);
    assert_eq!(scanner.found(), 0);
    let mut scanner = Scanner::new();
    assert_eq!(scanner.step(true, &WalkEntry::Unreadable), ScanAction::Stop);
    assert_eq!(scanner.found(), 0);
}

#[test]
fn hidden_entries_are_pruned_whatever_their_extension() {
    let mut scanner = Scanner::new();
    assert_eq!(scanner.step(false, &file(".a.cbz")), ScanAction::Prune);
    assert_eq!(scanner.step(false, &dir(".cache")), ScanAction::Prune);
    assert_eq!(scanner.found(), 0);
}

#[test]
fn results_follow_the_outcome() {
    let r = ScanResult::pending("/c/a.cbr".to_string());
    assert_eq!(r.status, ScanStatus::Pending);
    assert!(r.info.is_none() && r.error.is_none());

    let r = ScanResult::from_outcome("/c/a.cbr".to_string(), Ok(info(None)));
    assert_eq!(r.path, "/c/a.cbr");
    assert_eq!(r.status, ScanStatus::Supported);
    assert_eq!(r.info.unwrap().image_count, 3);
    assert!(r.error.is_none());

    let r = ScanResult::from_outcome("/c/b.cbr".to_string(), Ok(info(Some("Solid archive"))));
    assert_eq!(r.status, ScanStatus::Unsupported);
    assert_eq!(r.info.unwrap().unsupported_reason, Some("Solid archive".to_string()));
    assert!(r.error.is_none());

    let r = ScanResult::from_outcome("/c/c.cbr".to_string(), Err("boom".to_string()));
    assert_eq!(r.status, ScanStatus::Error);
    assert!(r.info.is_none());
    assert_eq!(r.error, Some("boom".to_string()));
}

#[test]
fn statuses_have_names() {
    assert_eq!(ScanStatus::Pending.name(), "Pending");
    assert_eq!(ScanStatus::Supported.name(), "Supported");
    assert_eq!(ScanStatus::Unsupported.name(), "Unsupported");
    assert_eq!(ScanStatus::Error.name(), "Error");
}
