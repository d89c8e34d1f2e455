use aloxide::archive::{is_directory, EntryKind};

fn name_field(name: &[u8]) -> Vec<u8> {
    let mut field = vec![0u8; 100];
    field[..name.len()].copy_from_slice(name);
    field
}

#[test]
fn regular_file_with_trailing_slash_is_directory() {
    let field = name_field(b"foo/bar/");
    assert!(is_directory(EntryKind::Regular, &field));
}

#[test]
fn regular_file_without_trailing_slash_is_not_directory() {
    let field = name_field(b"foo/bar.txt");
    assert!(!is_directory(EntryKind::Regular, &field));
}

#[test]
fn declared_directory_is_directory() {
    assert!(is_directory(EntryKind::Directory, &name_field(b"foo/bar.txt")));
    assert!(is_directory(EntryKind::Directory, &name_field(b"")));
    assert!(is_directory(EntryKind::Directory, &name_field(b"dir/")));
}

#[test]
fn other_kinds_are_not_directories() {
    assert!(!is_directory(EntryKind::Other, &name_field(b"foo/")));
    assert!(!is_directory(EntryKind::Other, &name_field(b"foo")));
}

#[test]
fn empty_name_is_not_directory() {
    assert!(!is_directory(EntryKind::Regular, &name_field(b"")));
}

#[test]
fn unterminated_name_checks_last_byte() {
    let full = vec![b'/'; 100];
    assert!(is_directory(EntryKind::Regular, &full));
    let mut other = vec![b'a'; 100];
    other[99] = b'b';
    assert!(!is_directory(EntryKind::Regular, &other));
}
