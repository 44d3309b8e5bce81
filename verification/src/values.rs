//! Structured header values as the metadata logic reads them.
//!
//! The YAML collaborator hands a decoded header over as an ordered list of
//! key/value pairs. A value the logic inspects is a string or a sequence of
//! strings; anything else is carried through verbatim as its canonical YAML
//! text, to be re-emitted unchanged.

use vstd::prelude::*;
use crate::text::str_eq;

verus! {

/// One structured header value.
#[derive(Debug, PartialEq, Eq)]
pub enum FieldValue {
    /// A string scalar.
    Text(String),
    /// A boolean scalar.
    Bool(bool),
    /// A sequence whose elements are all strings.
    TextList(Vec<String>),
    /// Any other structured value, as its canonical YAML text.
    Raw(String),
}

/// The mathematical shape of a field value.
#[verifier::ext_equal]
pub enum FieldValueView {
    Text(Seq<char>),
    Bool(bool),
    TextList(Seq<Seq<char>>),
    Raw(Seq<char>),
}

impl View for FieldValue {
    type V = FieldValueView;

    open spec fn view(&self) -> FieldValueView {
        match self {
            FieldValue::Text(s) => FieldValueView::Text(s@),
            FieldValue::Bool(b) => FieldValueView::Bool(*b),
            FieldValue::TextList(v) => FieldValueView::TextList(v.deep_view()),
            FieldValue::Raw(s) => FieldValueView::Raw(s@),
        }
    }
}

/// Copies a vector of strings, keeping every element's characters.
pub fn clone_strings(v: &Vec<String>) -> (r: Vec<String>)
    ensures
        r.deep_view() == v.deep_view(),
{
    let mut out: Vec<String> = Vec::new();
    let mut i: usize = 0;
    while i < v.len()
        invariant
            i <= v.len(),
            out.deep_view() =~~= v.deep_view().take(i as int),
        decreases v.len() - i,
    {
        let ghost pre = out.deep_view();
        out.push(v[i].clone());
        proof {
            assert(out.deep_view() =~~= pre.push(v@[i as int]@));
            assert(pre.push(v@[i as int]@) =~~= v.deep_view().take(i as int + 1));
        }
        i = i + 1;
    }
    proof {
        assert(out.deep_view() =~~= v.deep_view());
    }
    out
}

impl Clone for FieldValue {
    /// A copy with the same view.
    fn clone(&self) -> (r: Self)
        ensures
            r@ == self@,
    {
        match self {
            FieldValue::Text(s) => FieldValue::Text(s.clone()),
            FieldValue::Bool(b) => FieldValue::Bool(*b),
            FieldValue::TextList(v) => FieldValue::TextList(clone_strings(v)),
            FieldValue::Raw(s) => FieldValue::Raw(s.clone()),
        }
    }
}

/// The view of an ordered field list.
pub type FieldsView = Seq<(Seq<char>, FieldValueView)>;

/// The view of a decoded header: keys and values in document order.
pub open spec fn fields_view(fields: Seq<(String, FieldValue)>) -> FieldsView {
    fields.map_values(|p: (String, FieldValue)| (p.0@, p.1@))
}

/// The first value bound to `key`, scanning in document order.
pub open spec fn lookup(fields: FieldsView, key: Seq<char>) -> Option<FieldValueView>
    decreases fields.len(),
{
    if fields.len() == 0 {
        None
    } else if fields[0].0 == key {
        Some(fields[0].1)
    } else {
        lookup(fields.drop_first(), key)
    }
}

/// If no key among the first `i` entries matches, the lookup is decided by
/// the remainder.
pub proof fn lemma_lookup_skip(fields: FieldsView, key: Seq<char>, i: int)
    requires
        0 <= i <= fields.len(),
        forall|j: int| 0 <= j < i ==> fields[j].0 != key,
    ensures
        lookup(fields, key) == lookup(fields.subrange(i, fields.len() as int), key),
    decreases i,
{
    if i == 0 {
        assert(fields.subrange(0, fields.len() as int) =~= fields);
    } else {
        let rest = fields.drop_first();
        assert(rest =~= fields.subrange(1, fields.len() as int));
        assert(forall|j: int| 0 <= j < i - 1 ==> rest[j].0 != key);
        lemma_lookup_skip(rest, key, i - 1);
        assert(rest.subrange(i - 1, rest.len() as int) =~= fields.subrange(
            i,
            fields.len() as int,
        ));
        assert(fields[0].0 != key);
        assert(lookup(fields, key) == lookup(rest, key));
    }
}

/// If no key of `a` matches, the lookup in `a + b` is the lookup in `b`.
pub proof fn lemma_lookup_append(a: FieldsView, b: FieldsView, key: Seq<char>)
    requires
        forall|j: int| 0 <= j < a.len() ==> a[j].0 != key,
    ensures
        lookup(a + b, key) == lookup(b, key),
{
    lemma_lookup_skip(a + b, key, a.len() as int);
    assert((a + b).subrange(a.len() as int, (a + b).len() as int) =~= b);
}

/// Finds the first value bound to `key`.
pub fn lookup_field<'a>(fields: &'a Vec<(String, FieldValue)>, key: &str) -> (r: Option<
    &'a FieldValue,
>)
    ensures
        r is Some <==> lookup(fields_view(fields@), key@) is Some,
        r matches Some(v) ==> lookup(fields_view(fields@), key@) == Some(v@),
{
    let ghost fv = fields_view(fields@);
    let mut i: usize = 0;
    while i < fields.len()
        invariant
            i <= fields.len(),
            fv == fields_view(fields@),
            fv.len() == fields.len(),
            forall|j: int| 0 <= j < i ==> fv[j].0 != key@,
        decreases fields.len() - i,
    {
        if str_eq(fields[i].0.as_str(), key) {
            proof {
                lemma_lookup_skip(fv, key@, i as int);
                assert(fv.subrange(i as int, fv.len() as int)[0] == fv[i as int]);
            }
            return Some(&fields[i].1);
        }
        i = i + 1;
    }
    proof {
        lemma_lookup_skip(fv, key@, fields@.len() as int);
        assert(fv.subrange(fv.len() as int, fv.len() as int).len() == 0);
    }
    None
}

} // verus!
