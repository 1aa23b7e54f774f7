//! The page composition: splicing the script into the markup placeholder.

use rustui::page::{compose_from_files, compose_page, placeholder_bytes, LoadError};
use rustui::splice::replace_bytes;

const PLACEHOLDER: &[u8] = b"<script src=\"/index.js\" type=\"module\"></script>";

#[test]
fn placeholder_is_the_markup_line() {
    assert_eq!(placeholder_bytes(), PLACEHOLDER.to_vec());
}

#[test]
fn single_occurrence_is_replaced_exactly() {
    let markup = [
        b"<html><head></head><body>".as_slice(),
        PLACEHOLDER,
        b"</body></html>".as_slice(),
    ]
    .concat();
    let script = b"console.log(1);".to_vec();
    let page = compose_page(&markup, &script);
    let expected = [
        b"<html><head></head><body>".as_slice(),
        b"<script type=\"module\">console.log(1);</script>".as_slice(),
        b"</body></html>".as_slice(),
    ]
    .concat();
    assert_eq!(page, expected);
}

#[test]
fn markup_without_placeholder_is_unchanged() {
    let markup = b"<html><body>plain</body></html>".to_vec();
    let script = b"console.log(1);".to_vec();
    let page = compose_page(&markup, &script);
    assert_eq!(page, markup);
}

#[test]
fn empty_markup_is_unchanged() {
    let markup = Vec::new();
    let script = b"x".to_vec();
    assert_eq!(compose_page(&markup, &script), Vec::<u8>::new());
}

#[test]
fn empty_script_leaves_an_empty_tag() {
    let markup = PLACEHOLDER.to_vec();
    let script = Vec::new();
    let page = compose_page(&markup, &script);
    assert_eq!(page, b"<script type=\"module\"></script>".to_vec());
}

#[test]
fn placeholder_at_both_ends_is_replaced_twice() {
    let markup = [PLACEHOLDER, b"mid".as_slice(), PLACEHOLDER].concat();
    let script = b"s".to_vec();
    let page = compose_page(&markup, &script);
    let tag = b"<script type=\"module\">s</script>".as_slice();
    assert_eq!(page, [tag, b"mid".as_slice(), tag].concat());
}

#[test]
fn replace_scans_left_to_right() {
    let hay = b"aaa".to_vec();
    let needle = b"aa".to_vec();
    let repl = b"b".to_vec();
    assert_eq!(replace_bytes(&hay, &needle, &repl), b"ba".to_vec());
}

#[test]
fn replace_with_absent_needle_is_identity() {
    let hay = b"abcdef".to_vec();
    let needle = b"xyz".to_vec();
    let repl = b"!".to_vec();
    assert_eq!(replace_bytes(&hay, &needle, &repl), hay);
}

#[test]
fn replace_with_empty_needle_is_identity() {
    let hay = b"abc".to_vec();
    let needle = Vec::new();
    let repl = b"!".to_vec();
    assert_eq!(replace_bytes(&hay, &needle, &repl), hay);
}

#[test]
fn missing_markup_fails_the_loader() {
    let script = Some(b"x".to_vec());
    assert_eq!(compose_from_files(&None, &script), Err(LoadError::MissingMarkup));
}

#[test]
fn missing_script_fails_the_loader() {
    let markup = Some(PLACEHOLDER.to_vec());
    assert_eq!(compose_from_files(&markup, &None), Err(LoadError::MissingScript));
}

#[test]
fn both_files_missing_fails_with_the_markup_error() {
    assert_eq!(compose_from_files(&None, &None), Err(LoadError::MissingMarkup));
}

#[test]
fn both_files_present_compose_the_page() {
    let markup = Some([b"<body>".as_slice(), PLACEHOLDER, b"</body>".as_slice()].concat());
    let script = Some(b"go();".to_vec());
    let page = compose_from_files(&markup, &script).unwrap();
    assert_eq!(
        page,
        b"<body><script type=\"module\">go();</script></body>".to_vec()
    );
}
