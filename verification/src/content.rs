//! The content-file format: a three-part document split on the `---`
//! delimiter (empty preamble, metadata header, body), with the body handed
//! to the markdown collaborator.

use vstd::prelude::*;
use crate::error::{Error, ErrorKind};

verus! {

/// A `---` delimiter occurrence begins at position `i` of `s`.
pub open spec fn delim_at(s: Seq<char>, i: int) -> bool {
    0 <= i && i + 3 <= s.len() && s[i] == '-' && s[i + 1] == '-' && s[i + 2] == '-'
}

/// The parts of `s` split greedily, left to right, on non-overlapping `---`
/// occurrences. `start` is where the current part began and `i` the scan
/// position; the split of the whole document is `parts_of`.
pub open spec fn scan_parts(s: Seq<char>, start: int, i: int) -> Seq<Seq<char>>
    recommends
        0 <= start <= i <= s.len(),
    decreases s.len() - i,
{
    if s.len() - i < 3 {
        seq![s.subrange(start, s.len() as int)]
    } else if delim_at(s, i) {
        seq![s.subrange(start, i)] + scan_parts(s, i + 3, i + 3)
    } else {
        scan_parts(s, start, i + 1)
    }
}

/// What `s` splits into on the `---` delimiter.
pub open spec fn parts_of(s: Seq<char>) -> Seq<Seq<char>> {
    scan_parts(s, 0, 0)
}

/// How many `---` delimiters the split consumes: one less than the number
/// of parts it produces.
pub open spec fn delimiter_count(s: Seq<char>) -> int {
    parts_of(s).len() - 1
}

/// A well-formed content document: exactly two delimiters, hence exactly
/// three parts (preamble, header, body).
pub open spec fn well_split(s: Seq<char>) -> bool {
    delimiter_count(s) == 2
}

/// What the markdown collaborator renders a body to. The HTML depends on
/// the input text alone.
pub uninterp spec fn html_of(s: Seq<char>) -> Seq<char>;

/// Relies on pulldown_cmark: `Parser::new_ext` with the strikethrough,
/// footnote, table and task-list extensions, rendered by `html::push_html`.
/// The result is a function of the input text alone.
#[verifier::external_body]
fn markdown_to_html(input: &str) -> (r: String)
    ensures
        r@ == html_of(input@),
{
    let mut options = pulldown_cmark::Options::empty();
    options.insert(pulldown_cmark::Options::ENABLE_STRIKETHROUGH);
    options.insert(pulldown_cmark::Options::ENABLE_FOOTNOTES);
    options.insert(pulldown_cmark::Options::ENABLE_TABLES);
    options.insert(pulldown_cmark::Options::ENABLE_TASKLISTS);
    let parser = pulldown_cmark::Parser::new_ext(input, options);
    let mut html_output = String::new();
    pulldown_cmark::html::push_html(&mut html_output, parser);
    html_output
}

/// Splits `s` on every `---` occurrence, greedily and without overlap,
/// exactly as `parts_of` describes.
pub fn split_parts(s: &str) -> (parts: Vec<String>)
    ensures
        parts.deep_view() == parts_of(s@),
{
    let len = s.unicode_len();
    let mut parts: Vec<String> = Vec::new();
    let mut start: usize = 0;
    let mut i: usize = 0;
    loop
        invariant_except_break
            parts_of(s@) == parts.deep_view() + scan_parts(s@, start as int, i as int),
        invariant
            start <= i <= len,
            len == s@.len(),
        ensures
            parts.deep_view() == parts_of(s@),
        decreases len - i,
    {
        let ghost dv0 = parts.deep_view();
        if len - i < 3 {
            let tail = s.substring_char(start, len);
            parts.push(tail.to_owned());
            proof {
                assert(parts.deep_view() =~~= dv0.push(tail@));
                assert(scan_parts(s@, start as int, i as int) == seq![
                    s@.subrange(start as int, len as int),
                ]);
                assert(parts_of(s@) =~~= parts.deep_view());
            }
            break;
        } else if s.get_char(i) == '-' && s.get_char(i + 1) == '-' && s.get_char(i + 2) == '-' {
            let part = s.substring_char(start, i);
            parts.push(part.to_owned());
            proof {
                assert(delim_at(s@, i as int));
                assert(parts.deep_view() =~~= dv0.push(part@));
                assert(scan_parts(s@, start as int, i as int) == seq![
                    s@.subrange(start as int, i as int),
                ] + scan_parts(s@, i + 3, i + 3));
                assert(dv0 + scan_parts(s@, start as int, i as int) =~~= parts.deep_view()
                    + scan_parts(s@, i + 3, i + 3));
            }
            start = i + 3;
            i = i + 3;
        } else {
            proof {
                assert(!delim_at(s@, i as int));
            }
            i = i + 1;
        }
    }
    parts
}

/// Splits a content document into its metadata header and its rendered
/// body. Succeeds exactly when the document consists of three parts:
/// a preamble, a header block and a body, separated by two `---`
/// delimiters; the header is returned verbatim and the body rendered by
/// the markdown collaborator.
pub fn parse_markdown_with_meta(input: &str) -> (r: Result<(String, String), Error>)
    ensures
        r is Ok <==> well_split(input@),
        r matches Ok(p) ==> p.0@ == parts_of(input@)[1] && p.1@ == html_of(parts_of(input@)[2]),
        r matches Err(e) ==> e.kind == ErrorKind::ContentFormat,
{
    let mut parts = split_parts(input);
    if parts.len() != 3 {
        return Err(Error::new(ErrorKind::ContentFormat, String::new()));
    }
    let header = parts.remove(1);
    let body = parts.remove(1);
    proof {
        assert(header@ == parts_of(input@)[1]);
        assert(body@ == parts_of(input@)[2]);
    }
    let html = markdown_to_html(body.as_str());
    Ok((header, html))
}

/// Loads one content document, labelling a format failure with the file's
/// source path.
pub fn load_document(input: &str, source_path: &str) -> (r: Result<(String, String), Error>)
    ensures
        r is Ok <==> well_split(input@),
        r matches Ok(p) ==> p.0@ == parts_of(input@)[1] && p.1@ == html_of(parts_of(input@)[2]),
        r matches Err(e) ==> e.kind == ErrorKind::ContentFormat && e.stage@ == source_path@,
{
    match parse_markdown_with_meta(input) {
        Ok(p) => Ok(p),
        Err(e) => Err(e.wrap(ErrorKind::ContentFormat, source_path.to_owned())),
    }
}

} // verus!
