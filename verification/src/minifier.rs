//! HTML/CSS minification levels, delegated to the minifier collaborator.

use vstd::prelude::*;

verus! {

/// How aggressively generated text is minified.
#[derive(Debug, Clone, Copy, PartialEq, Eq, Structural)]
pub enum MinificationLevel {
    /// Text passes through unchanged.
    Disabled,
    /// Only specification-compliant minification.
    SpecCompliant,
    /// Also minification that almost all browsers parse correctly.
    Maximal,
}

/// What the minifier collaborator returns: a function of the input text
/// and of whether it is held to the specification-compliant rules.
pub uninterp spec fn minified(spec_compliant: bool, s: Seq<char>) -> Seq<char>;

/// Relies on minify_html::minify with the default `Cfg`, whose settings
/// are all specification-compliant; the UTF-8 decoding is lossy, so the
/// call returns on every input.
#[verifier::external_body]
fn minify_spec_compliant(input: &str) -> (r: String)
    ensures
        r@ == minified(true, input@),
{
    let out = minify_html::minify(input.as_bytes(), &minify_html::Cfg::new());
    String::from_utf8_lossy(&out).into_owned()
}

/// Relies on minify_html::minify with `enable_possibly_noncompliant`
/// switched on; the UTF-8 decoding is lossy, so the call returns on
/// every input.
#[verifier::external_body]
fn minify_maximal(input: &str) -> (r: String)
    ensures
        r@ == minified(false, input@),
{
    let mut cfg = minify_html::Cfg::new();
    cfg.enable_possibly_noncompliant();
    let out = minify_html::minify(input.as_bytes(), &cfg);
    String::from_utf8_lossy(&out).into_owned()
}

/// What minification at each level returns: the identity when disabled.
pub open spec fn minify_spec(level: MinificationLevel, s: Seq<char>) -> Seq<char> {
    match level {
        MinificationLevel::Disabled => s,
        MinificationLevel::SpecCompliant => minified(true, s),
        MinificationLevel::Maximal => minified(false, s),
    }
}

/// Minifies `input` at the given level; `Disabled` is the identity.
pub fn minify_string(input: &str, minification: &MinificationLevel) -> (r: String)
    ensures
        r@ == minify_spec(*minification, input@),
{
    match minification {
        MinificationLevel::Disabled => input.to_owned(),
        MinificationLevel::SpecCompliant => minify_spec_compliant(input),
        MinificationLevel::Maximal => minify_maximal(input),
    }
}

} // verus!
