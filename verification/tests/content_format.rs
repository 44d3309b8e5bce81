use renatic::content::{load_document, parse_markdown_with_meta, split_parts};
use renatic::error::ErrorKind;

#[test]
fn well_formed_document_splits_into_header_and_body() {
    let (header, html) = parse_markdown_with_meta("---\ntitle: A\n---\nbody text").unwrap();
    assert_eq!(header, "\ntitle: A\n");
    assert_eq!(html, "<p>body text</p>\n");
}

#[test]
fn markdown_body_is_rendered() {
    let (_, html) = parse_markdown_with_meta("---\nt\n---\n# Heading\n\n*em*").unwrap();
    assert!(html.contains("<h1>Heading</h1>"));
    assert!(html.contains("<em>em</em>"));
}

#[test]
fn empty_body_is_fine() {
    let (header, html) = parse_markdown_with_meta("---\ntitle: X\n---").unwrap();
    assert_eq!(header, "\ntitle: X\n");
    assert_eq!(html, "");
}

#[test]
fn one_delimiter_fails() {
    let err = parse_markdown_with_meta("---\ntitle: A\nno body fence").unwrap_err();
    assert_eq!(err.kind, ErrorKind::ContentFormat);
}

#[test]
fn no_delimiter_fails() {
    let err = parse_markdown_with_meta("just some text").unwrap_err();
    assert_eq!(err.kind, ErrorKind::ContentFormat);
}

#[test]
fn three_delimiters_fail() {
    let err = parse_markdown_with_meta("---a---b---c").unwrap_err();
    assert_eq!(err.kind, ErrorKind::ContentFormat);
}

#[test]
fn overlapping_dashes_do_not_count_twice() {
    // four dashes hold only one non-overlapping delimiter
    let err = parse_markdown_with_meta("----").unwrap_err();
    assert_eq!(err.kind, ErrorKind::ContentFormat);
}

#[test]
fn format_error_names_the_file() {
    let err = load_document("no fences here", "posts/broken.md").unwrap_err();
    assert_eq!(err.kind, ErrorKind::ContentFormat);
    assert_eq!(err.stage, "posts/broken.md");
}

#[test]
fn load_document_passes_good_input_through() {
    let (header, html) = load_document("---\nt: v\n---\nhi", "posts/ok.md").unwrap();
    assert_eq!(header, "\nt: v\n");
    assert_eq!(html, "<p>hi</p>\n");
}

#[test]
fn split_keeps_every_part_in_order() {
    assert_eq!(split_parts("a---b---c---d"), vec!["a", "b", "c", "d"]);
    assert_eq!(split_parts("no fences"), vec!["no fences"]);
    assert_eq!(split_parts("x---"), vec!["x", ""]);
}
