//! Checks the sanitized target paths against the sanitization policy.
use file_upload::filename::target_path;

#[test]
fn plain_name_is_kept() {
    assert_eq!(target_path("./uploads", "notes.txt"), "./uploads/notes.txt");
}

#[test]
fn separators_are_removed() {
    assert_eq!(target_path("./uploads", "a/b.txt"), "./uploads/ab.txt");
    assert_eq!(target_path("./uploads", "a\\b.txt"), "./uploads/ab.txt");
}

#[test]
fn reserved_characters_are_removed() {
    assert_eq!(target_path("./uploads", "a:b*c?.txt"), "./uploads/abc.txt");
}

#[test]
fn dots_only_name_becomes_empty() {
    assert_eq!(target_path("./uploads", ".."), "./uploads/");
    assert_eq!(target_path("./uploads", "..."), "./uploads/");
}

#[test]
fn traversal_sequences_cannot_escape() {
    let path = target_path("./uploads", "../../etc/passwd");
    let rest = path.strip_prefix("./uploads/").expect("confined to the upload directory");
    assert!(!rest.contains('/') && !rest.contains('\\'));
    assert_ne!(rest, ".");
    assert_ne!(rest, "..");
}
