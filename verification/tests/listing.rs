use file_explorer::entry::{ChildProbe, FileSystemEntry};

fn bytes(text: &str) -> Vec<u8> {
    text.as_bytes().to_vec()
}

fn dir() -> FileSystemEntry {
    FileSystemEntry { name: bytes("root"), path: bytes("/srv/root"), is_dir: true }
}

fn child(name: &str, is_dir: bool) -> Option<ChildProbe> {
    Some(ChildProbe {
        name: bytes(name),
        path: bytes(&format!("/srv/root/{name}")),
        is_dir: Some(is_dir),
    })
}

fn entry(name: &str, is_dir: bool) -> FileSystemEntry {
    FileSystemEntry { name: bytes(name), path: bytes(&format!("/srv/root/{name}")), is_dir }
}

#[test]
fn lists_exactly_the_children() {
    let enumeration = Some(vec![child("docs", true), child("readme.txt", false)]);
    assert_eq!(
        dir().list_files(&enumeration),
        Some(vec![entry("docs", true), entry("readme.txt", false)])
    );
}

#[test]
fn keeps_the_enumeration_order() {
    let enumeration = Some(vec![child("b", false), child("a", false), child("c", true)]);
    assert_eq!(
        dir().list_files(&enumeration),
        Some(vec![entry("b", false), entry("a", false), entry("c", true)])
    );
}

#[test]
fn an_empty_directory_has_an_empty_listing() {
    assert_eq!(dir().list_files(&Some(vec![])), Some(vec![]));
}

#[test]
fn skips_a_child_that_could_not_be_read() {
    let enumeration = Some(vec![child("a", false), None, child("b", true), None]);
    assert_eq!(
        dir().list_files(&enumeration),
        Some(vec![entry("a", false), entry("b", true)])
    );
}

#[test]
fn skips_a_child_whose_type_could_not_be_read() {
    let unknown = Some(ChildProbe { name: bytes("x"), path: bytes("/srv/root/x"), is_dir: None });
    let enumeration = Some(vec![unknown, child("y", false)]);
    assert_eq!(dir().list_files(&enumeration), Some(vec![entry("y", false)]));
}

#[test]
fn a_listing_may_lose_every_child() {
    assert_eq!(dir().list_files(&Some(vec![None, None])), Some(vec![]));
}

#[test]
fn an_unreadable_directory_has_no_listing() {
    assert_eq!(dir().list_files(&None), None);
}

#[test]
fn a_file_has_no_listing() {
    let file = entry("readme.txt", false);
    assert_eq!(file.list_files(&Some(vec![child("a", false)])), None);
    assert_eq!(file.list_files(&None), None);
}

#[test]
fn reads_text() {
    let file = entry("readme.txt", false);
    assert_eq!(file.read_content(Some(bytes("hello"))), Some("hello".to_string()));
    assert_eq!(file.read_content(Some(bytes("héllo\n"))), Some("héllo\n".to_string()));
    assert_eq!(file.read_content(Some(vec![])), Some(String::new()));
}

#[test]
fn bytes_that_are_not_text_have_no_content() {
    let file = entry("blob", false);
    assert_eq!(file.read_content(Some(vec![0xff, 0xfe, 0x00])), None);
    assert_eq!(file.read_content(Some(vec![b'a', 0xc3])), None);
}

#[test]
fn a_failed_read_has_no_content() {
    assert_eq!(entry("locked", false).read_content(None), None);
}

#[test]
fn a_directory_has_no_content() {
    assert_eq!(dir().read_content(Some(bytes("hello"))), None);
    assert_eq!(dir().read_content(None), None);
}
