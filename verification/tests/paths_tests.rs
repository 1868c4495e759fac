use skindle::errors::Error;
use skindle::paths::{name_extension, FileInfo};

fn info(path: &str) -> FileInfo {
    match FileInfo::from_path(path) {
        Ok(f) => f,
        Err(_) => panic!("expected a valid path"),
    }
}

fn invalid(path: &str) -> Error {
    match FileInfo::from_path(path) {
        Ok(_) => panic!("expected an invalid path"),
        Err(e) => e,
    }
}

#[test]
fn from_path_derives_name_and_stem() {
    let f = info("books/report.pdf");
    assert_eq!(f.path, "books/report.pdf");
    assert_eq!(f.name, "report.pdf");
    assert_eq!(f.stem, "report");
}

#[test]
fn from_path_without_directory() {
    let f = info("book.epub");
    assert_eq!(f.name, "book.epub");
    assert_eq!(f.stem, "book");
}

#[test]
fn from_path_keeps_inner_dots_in_stem() {
    let f = info("a/archive.tar.gz");
    assert_eq!(f.name, "archive.tar.gz");
    assert_eq!(f.stem, "archive.tar");
}

#[test]
fn from_path_hidden_file_has_no_extension() {
    let f = info(".bashrc");
    assert_eq!(f.name, ".bashrc");
    assert_eq!(f.stem, ".bashrc");
}

#[test]
fn from_path_without_extension() {
    let f = info("docs/README");
    assert_eq!(f.name, "README");
    assert_eq!(f.stem, "README");
}

#[test]
fn from_path_rejects_trailing_slash() {
    let e = invalid("foo/");
    assert!(matches!(e, Error::InvalidPath { path } if path == "foo/"));
}

#[test]
fn from_path_rejects_dot_dot() {
    assert!(matches!(invalid("foo/.."), Error::InvalidPath { .. }));
    assert!(matches!(invalid(".."), Error::InvalidPath { .. }));
}

#[test]
fn from_path_rejects_dot_and_empty() {
    assert!(matches!(invalid("."), Error::InvalidPath { .. }));
    assert!(matches!(invalid(""), Error::InvalidPath { .. }));
}

#[test]
fn converted_in_substitutes_extension() {
    let f = info("books/book.epub");
    let c = f.converted_in("/tmp", "mobi");
    assert_eq!(c.path, "/tmp/book.mobi");
    assert_eq!(c.name, "book.mobi");
    assert_eq!(c.stem, "book");
}

#[test]
fn converted_in_keeps_inner_dots() {
    let f = info("archive.tar.gz");
    let c = f.converted_in("/var/tmp", "mobi");
    assert_eq!(c.path, "/var/tmp/archive.tar.mobi");
    assert_eq!(c.name, "archive.tar.mobi");
}

#[test]
fn name_extension_cases() {
    assert_eq!(name_extension("book.epub"), "epub");
    assert_eq!(name_extension("archive.tar.gz"), "gz");
    assert_eq!(name_extension("README"), "");
    assert_eq!(name_extension(".bashrc"), "");
    assert_eq!(name_extension("a."), "");
}
