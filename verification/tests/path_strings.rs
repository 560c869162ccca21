//! The pure string-level queries: trailing component, extension, parent,
//! absolute and relative.

use file_api::file::File;
use file_api::FileAPI;

#[test]
fn filename_of_nested_path() {
    assert_eq!(File::new("/a/b/c.txt").filename().to_string(), "c.txt");
    assert_eq!(String::from("/a/b/c.txt").filename(), "c.txt");
    assert_eq!("/a/b/c.txt".filename(), "c.txt");
}

#[test]
fn filename_without_separator_is_whole() {
    assert_eq!(File::new("c.txt").filename().to_string(), "c.txt");
}

#[test]
fn filename_of_root_is_empty() {
    assert_eq!(File::new("/").filename().to_string(), "");
    assert_eq!(File::new("").filename().to_string(), "");
}

#[test]
fn filename_ignores_trailing_separators() {
    assert_eq!("a/b/".filename(), "b");
    assert_eq!(File::new("/a/b//").filename().to_string(), "b");
}

#[test]
fn filename_ignores_trailing_dot_components() {
    assert_eq!("a/b/.".filename(), "b");
    assert_eq!("a/./".filename(), "a");
}

#[test]
fn a_final_dot_dot_names_nothing() {
    assert_eq!("..".filename(), "");
    assert_eq!("/..".filename(), "");
    assert_eq!("a/..".filename(), "");
    assert_eq!(".".filename(), "");
}

#[test]
fn extension_of_nested_path() {
    assert_eq!(File::new("/a/b/c.txt").ext(), "txt");
    assert_eq!(String::from("/a/b/c.txt").ext(), "txt");
}

#[test]
fn extension_absent_without_dot() {
    assert_eq!(File::new("/a/b/c").ext(), "");
    assert_eq!(String::from("/a/b/c").ext(), "");
}

#[test]
fn extension_of_hidden_file_is_empty() {
    assert_eq!(File::new(".bashrc").ext(), "");
    assert_eq!(File::new("/home/u/.bashrc").ext(), "");
}

#[test]
fn extension_takes_last_dot() {
    assert_eq!(File::new("archive.tar.gz").ext(), "gz");
}

#[test]
fn extension_ignores_dots_before_separator() {
    assert_eq!(File::new("a.b/c").ext(), "");
}

#[test]
fn extension_behind_trailing_separator() {
    assert_eq!("a/b.txt/".ext(), "txt");
}

#[test]
fn parent_ignores_trailing_dot_components() {
    assert_eq!("/a/.".parent(), Some(String::from("/")));
}

#[test]
fn parent_of_dot_is_the_empty_path() {
    assert_eq!(".".parent(), Some(String::from("")));
    assert_eq!("./".parent(), Some(String::from("")));
    assert_eq!("./.".parent(), Some(String::from("")));
    assert_eq!("/.".parent(), None);
}

#[test]
fn parent_removes_a_final_dot_dot_component() {
    assert_eq!("a/..".parent(), Some(String::from("a")));
    assert_eq!("..".parent(), Some(String::from("")));
}

#[test]
fn parent_of_nested_path() {
    let p = File::new("/a/b/c.txt").parent().expect("parent");
    assert_eq!(p.to_string(), "/a/b");
    assert_eq!(String::from("/a/b/c.txt").parent(), Some(String::from("/a/b")));
    assert_eq!("/a/b/c.txt".parent(), Some(String::from("/a/b")));
}

#[test]
fn parent_of_root_is_absent() {
    assert!(File::new("/").parent().is_none());
    assert_eq!(String::from("/").parent(), None);
    assert!(File::new("///").parent().is_none());
    assert!(File::new("").parent().is_none());
}

#[test]
fn parent_of_top_level_entry_is_root() {
    let p = File::new("/a").parent().expect("parent");
    assert_eq!(p.to_string(), "/");
}

#[test]
fn parent_of_bare_name_is_empty() {
    let p = File::new("c.txt").parent().expect("parent");
    assert_eq!(p.to_string(), "");
}

#[test]
fn parent_ignores_trailing_separators() {
    let p = File::new("/a/b/").parent().expect("parent");
    assert_eq!(p.to_string(), "/a");
}

#[test]
fn absolute_and_relative_are_opposites() {
    let abs = File::new("/a/b");
    assert!(abs.is_absolute());
    assert!(!abs.is_relative());
    let rel = File::new("a/b");
    assert!(!rel.is_absolute());
    assert!(rel.is_relative());
    assert!(String::from("/x").is_absolute());
    assert!(String::from("x").is_relative());
}

#[test]
fn handle_keeps_its_text() {
    let f = File::new("/a/b");
    assert_eq!(f.as_path(), "/a/b");
    assert_eq!(f.to_string(), "/a/b");
    assert_eq!(f.as_path_buf().to_str(), Some("/a/b"));
    assert_eq!(String::from("/a/b").to_path_buf().to_str(), Some("/a/b"));
}

#[test]
fn handle_from_path_value() {
    let p = File::new("/a/b").as_path_buf();
    let f = File::from_path_buf(p).expect("valid text");
    assert_eq!(f.to_string(), "/a/b");
}
