use credstore::files::{
    get_directories_from_directory, get_directories_from_directory_recursive, get_drives,
    get_entries_from_directory, get_entries_from_directory_recursive, get_files,
    get_files_from_directory, get_files_from_directory_recursive, DirectoryReader, FilesInfo,
    SnapshotReader,
};
use credstore::files::{get_chrome_path, paths_to_strings, strings_to_paths};
use std::path::PathBuf;
use credstore::values::StructuredValue;

fn owned(v: &[&str]) -> Vec<String> {
    v.iter().map(|s| (*s).to_owned()).collect()
}

fn sample_reader() -> SnapshotReader {
    SnapshotReader {
        dirs: owned(&["C:", "C:\\root", "C:\\root\\sub", "C:\\root\\sub\\deep"]),
        files: owned(&["C:\\root\\a.txt", "C:\\root\\sub\\b.txt", "C:\\root\\sub\\deep\\c.txt"]),
        assoc: vec![
            ("C:\\root".to_owned(), owned(&["C:\\root\\a.txt", "C:\\root\\sub"])),
            ("C:\\root\\sub".to_owned(), owned(&["C:\\root\\sub\\b.txt", "C:\\root\\sub\\deep"])),
            ("C:\\root\\sub\\deep".to_owned(), owned(&["C:\\root\\sub\\deep\\c.txt"])),
        ],
    }
}

#[test]
fn entries_come_from_the_listing() {
    let reader = sample_reader();
    let entries = get_entries_from_directory(&reader, &"C:\\root".to_owned());
    assert_eq!(entries, owned(&["C:\\root\\a.txt", "C:\\root\\sub"]));
}

#[test]
fn unknown_directory_lists_as_empty() {
    let reader = sample_reader();
    let entries = get_entries_from_directory(&reader, &"D:\\other".to_owned());
    assert_eq!(entries, Vec::<String>::new());
}

#[test]
fn recursive_listing_walks_subdirectories() {
    let reader = sample_reader();
    let entries = get_entries_from_directory_recursive(&reader, &"C:\\root".to_owned());
    assert_eq!(
        entries,
        owned(&[
            "C:\\root\\a.txt",
            "C:\\root\\sub",
            "C:\\root\\sub\\b.txt",
            "C:\\root\\sub\\deep",
            "C:\\root\\sub\\deep\\c.txt",
        ])
    );
}

#[test]
fn flat_filters_keep_only_matching_entries() {
    let reader = sample_reader();
    let files = get_files_from_directory(&reader, &"C:\\root".to_owned());
    assert_eq!(files, owned(&["C:\\root\\a.txt"]));
    let dirs = get_directories_from_directory(&reader, &"C:\\root".to_owned());
    assert_eq!(dirs, owned(&["C:\\root\\sub"]));
}

#[test]
fn recursive_filters_keep_only_matching_entries() {
    let reader = sample_reader();
    let files = get_files_from_directory_recursive(&reader, &"C:\\root".to_owned());
    assert_eq!(
        files,
        owned(&["C:\\root\\a.txt", "C:\\root\\sub\\b.txt", "C:\\root\\sub\\deep\\c.txt"])
    );
    let dirs = get_directories_from_directory_recursive(&reader, &"C:\\root".to_owned());
    assert_eq!(dirs, owned(&["C:\\root\\sub", "C:\\root\\sub\\deep"]));
}

#[test]
fn drives_are_the_roots_that_exist() {
    let reader = sample_reader();
    assert_eq!(get_drives(&reader), owned(&["C:"]));
    let mut two = sample_reader();
    two.dirs.push("Q:".to_owned());
    assert_eq!(get_drives(&two), owned(&["C:", "Q:"]));
}

#[test]
fn reader_probes_answer_membership() {
    let reader = sample_reader();
    assert!(reader.is_dir(&"C:\\root\\sub".to_owned()));
    assert!(!reader.is_dir(&"C:\\root\\a.txt".to_owned()));
    assert!(reader.is_file(&"C:\\root\\a.txt".to_owned()));
    assert!(!reader.is_file(&"C:\\nope".to_owned()));
}

#[test]
fn get_files_lists_each_named_directory() {
    let reader = sample_reader();
    let info: FilesInfo = get_files(
        &reader,
        &"C:\\root".to_owned(),
        &"C:\\root\\sub".to_owned(),
        &"D:\\missing".to_owned(),
    );
    assert_eq!(info.desktop, owned(&["C:\\root\\a.txt", "C:\\root\\sub"]));
    assert_eq!(info.downloads, owned(&["C:\\root\\sub\\b.txt", "C:\\root\\sub\\deep"]));
    assert_eq!(info.documents, Vec::<String>::new());
}

#[test]
fn files_info_serializes_to_named_listings() {
    let info = FilesInfo {
        desktop: owned(&["d1"]),
        downloads: owned(&[]),
        documents: owned(&["x", "y"]),
    };
    assert_eq!(
        info.to_structured(),
        StructuredValue::Object(vec![
            (
                "desktop".to_owned(),
                StructuredValue::Array(vec![StructuredValue::Text("d1".to_owned())])
            ),
            ("downloads".to_owned(), StructuredValue::Array(Vec::new())),
            (
                "documents".to_owned(),
                StructuredValue::Array(vec![
                    StructuredValue::Text("x".to_owned()),
                    StructuredValue::Text("y".to_owned()),
                ])
            ),
        ])
    );
}

#[test]
fn chrome_path_ends_with_the_fixed_subpath() {
    assert!(get_chrome_path().ends_with("\\Google\\Chrome\\User Data"));
}

#[test]
fn path_conversions_keep_text_and_order() {
    let paths = vec![PathBuf::from("/a/b"), PathBuf::from("c.txt")];
    let strings = paths_to_strings(paths);
    assert_eq!(strings, vec!["/a/b".to_owned(), "c.txt".to_owned()]);
    let back = strings_to_paths(strings);
    assert_eq!(back, vec![PathBuf::from("/a/b"), PathBuf::from("c.txt")]);
}
