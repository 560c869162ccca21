//! Queries that ask the platform about real locations: existence, kind,
//! canonical form, executable permission, and search-path resolution.

use file_api::file::File;
use file_api::FileAPI;

#[test]
fn a_regular_file_is_a_file_and_no_folder() {
    let f = File::new("/etc/passwd");
    assert!(f.exists_on_disk());
    assert!(f.is_file());
    assert!(!f.is_folder());
    assert!(String::from("/etc/passwd").is_file());
}

#[test]
fn a_directory_is_a_folder_and_no_file() {
    let d = File::new("/");
    assert!(d.exists_on_disk());
    assert!(d.is_folder());
    assert!(!d.is_file());
    let s = File::new("/etc");
    assert!(s.exists_on_disk());
    assert!(s.is_folder());
    assert!(!s.is_file());
}

#[test]
fn a_missing_path_is_nothing() {
    let p = File::new("no/such/location/anywhere.zz9q");
    assert!(!p.exists_on_disk());
    assert!(!p.is_file());
    assert!(!p.is_folder());
    assert!(!p.is_symlink());
    assert!(!p.is_exec());
}

#[test]
fn canonical_resolves_dot_dot() {
    let round = File::new("/etc/..").canonical().expect("canonical");
    let plain = File::new("/").canonical().expect("canonical");
    assert_eq!(round.to_string(), plain.to_string());
    assert!(round.is_absolute());
}

#[test]
fn canonical_of_missing_path_is_absent() {
    assert!(File::new("no/such/location/anywhere.zz9q").canonical().is_none());
    assert!(String::from("no/such/location/anywhere.zz9q").canonical().is_none());
}

#[test]
fn which_finds_an_installed_command() {
    assert!("ls".which().is_some());
    let found = String::from("ls").which().expect("ls on the search path");
    assert!(found.starts_with('/'));
    let hit = File::new(&found);
    assert!(hit.is_file());
    assert!(hit.is_exec());
}

#[test]
fn which_misses_a_fabricated_command() {
    assert_eq!(String::from("no-such-command-born-of-thin-air").which(), None);
}

#[test]
fn a_directory_is_not_executable_as_a_command_target() {
    // The permission test asks for an executable regular file; a directory,
    // though traversable, is not one.
    assert!(!File::new("/").is_exec());
}
