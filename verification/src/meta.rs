//! The metadata model: the typed header of a content file.
//!
//! Five keys are recognized — `title` (required), `date`, `category`,
//! `tags` and `template` — and every other key is preserved verbatim in
//! `custom_fields` and re-emitted unchanged when the metadata is
//! serialized back into a render context.

use vstd::prelude::*;
use crate::dates::{
    Date, format_date, format_date_spec, lemma_date_round_trip, parse_date, parse_date_spec,
    valid_date,
};
use crate::error::{Error, ErrorKind, MetaError};
use crate::text::str_eq;
use crate::values::{
    clone_strings, fields_view, lemma_lookup_append, lemma_lookup_skip, lookup, lookup_field,
    FieldValue, FieldValueView, FieldsView,
};

verus! {

/// The typed header of one content file.
#[derive(Debug)]
pub struct Meta {
    pub title: String,
    pub date: Option<Date>,
    pub category: Option<String>,
    pub tags: Option<Vec<String>>,
    pub template: Option<String>,
    /// Every unrecognized key, in document order.
    pub custom_fields: Vec<(String, FieldValue)>,
}

/// The mathematical shape of a metadata value.
#[verifier::ext_equal]
pub struct MetaView {
    pub title: Seq<char>,
    pub date: Option<Date>,
    pub category: Option<Seq<char>>,
    pub tags: Option<Seq<Seq<char>>>,
    pub template: Option<Seq<char>>,
    pub custom_fields: FieldsView,
}

impl View for Meta {
    type V = MetaView;

    open spec fn view(&self) -> MetaView {
        MetaView {
            title: self.title@,
            date: self.date,
            category: match self.category {
                Some(c) => Some(c@),
                None => None,
            },
            tags: match self.tags {
                Some(t) => Some(t.deep_view()),
                None => None,
            },
            template: match self.template {
                Some(t) => Some(t@),
                None => None,
            },
            custom_fields: fields_view(self.custom_fields@),
        }
    }
}

/// The recognized header keys.
pub open spec fn is_reserved(key: Seq<char>) -> bool {
    ||| key == "title"@
    ||| key == "date"@
    ||| key == "category"@
    ||| key == "tags"@
    ||| key == "template"@
}

/// The unrecognized remainder of a header, in document order.
pub open spec fn strip_reserved(fields: FieldsView) -> FieldsView {
    fields.filter(|p: (Seq<char>, FieldValueView)| !is_reserved(p.0))
}

/// What the `date` key decodes to: absent is fine, anything but a
/// well-formed `YYYY-MM-DD` string is a date-format error.
pub open spec fn decode_date(fields: FieldsView) -> Result<Option<Date>, MetaError> {
    match lookup(fields, "date"@) {
        None => Ok(None),
        Some(FieldValueView::Text(s)) => match parse_date_spec(s) {
            Some(d) => Ok(Some(d)),
            None => Err(MetaError::DateFormat),
        },
        Some(_) => Err(MetaError::DateFormat),
    }
}

/// What an optional string key decodes to.
pub open spec fn decode_text_opt(fields: FieldsView, key: Seq<char>) -> Result<
    Option<Seq<char>>,
    MetaError,
> {
    match lookup(fields, key) {
        None => Ok(None),
        Some(FieldValueView::Text(s)) => Ok(Some(s)),
        Some(_) => Err(MetaError::Type),
    }
}

/// What the `tags` key decodes to: absent, or a sequence of strings.
pub open spec fn decode_tags(fields: FieldsView) -> Result<Option<Seq<Seq<char>>>, MetaError> {
    match lookup(fields, "tags"@) {
        None => Ok(None),
        Some(FieldValueView::TextList(l)) => Ok(Some(l)),
        Some(_) => Err(MetaError::Type),
    }
}

/// What a header decodes to: the recognized fields checked in the fixed
/// order title, date, category, tags, template, and everything else kept
/// verbatim.
pub open spec fn decode_meta(fields: FieldsView) -> Result<MetaView, MetaError> {
    match lookup(fields, "title"@) {
        Some(FieldValueView::Text(title)) => match decode_date(fields) {
            Err(e) => Err(e),
            Ok(date) => match decode_text_opt(fields, "category"@) {
                Err(e) => Err(e),
                Ok(category) => match decode_tags(fields) {
                    Err(e) => Err(e),
                    Ok(tags) => match decode_text_opt(fields, "template"@) {
                        Err(e) => Err(e),
                        Ok(template) => Ok(
                            MetaView {
                                title,
                                date,
                                category,
                                tags,
                                template,
                                custom_fields: strip_reserved(fields),
                            },
                        ),
                    },
                },
            },
        },
        _ => Err(MetaError::MissingField),
    }
}

/// A well-formed metadata value: the date is a real calendar day and no
/// custom field shadows a recognized key. Decoding establishes this.
pub open spec fn meta_wf(m: MetaView) -> bool {
    &&& (m.date matches Some(d) ==> valid_date(d))
    &&& forall|i: int|
        0 <= i < m.custom_fields.len() ==> !is_reserved(#[trigger] m.custom_fields[i].0)
}

/// What a metadata value re-serializes to: the custom fields in document
/// order, then the recognized fields in a fixed shape, present ones only.
pub open spec fn encode_meta(m: MetaView) -> FieldsView {
    m.custom_fields + seq![("title"@, FieldValueView::Text(m.title))] + (match m.date {
        Some(d) => seq![("date"@, FieldValueView::Text(format_date_spec(d)))],
        None => Seq::empty(),
    }) + (match m.category {
        Some(c) => seq![("category"@, FieldValueView::Text(c))],
        None => Seq::empty(),
    }) + (match m.tags {
        Some(t) => seq![("tags"@, FieldValueView::TextList(t))],
        None => Seq::empty(),
    }) + (match m.template {
        Some(t) => seq![("template"@, FieldValueView::Text(t))],
        None => Seq::empty(),
    })
}

/// A lookup over fields none of which carry the key finds nothing.
proof fn lemma_lookup_none(s: FieldsView, k: Seq<char>)
    requires
        forall|j: int| 0 <= j < s.len() ==> (#[trigger] s[j]).0 != k,
    ensures
        lookup(s, k) is None,
{
    lemma_lookup_skip(s, k, s.len() as int);
    assert(s.subrange(s.len() as int, s.len() as int).len() == 0);
}

/// A filter that keeps every element is the identity.
proof fn lemma_filter_all_true<A>(s: Seq<A>, pred: spec_fn(A) -> bool)
    requires
        forall|i: int| 0 <= i < s.len() ==> pred(#[trigger] s[i]),
    ensures
        s.filter(pred) == s,
    decreases s.len(),
{
    reveal(Seq::filter);
    if s.len() > 0 {
        lemma_filter_all_true(s.drop_last(), pred);
        assert(s.drop_last().push(s.last()) =~= s);
    }
}

/// The lookup of `k` in `pre + ((k, v) :: post)` finds `v` when no key of
/// `pre` is `k`.
proof fn lemma_lookup_block(pre: FieldsView, k: Seq<char>, v: FieldValueView, post: FieldsView)
    requires
        forall|j: int| 0 <= j < pre.len() ==> (#[trigger] pre[j]).0 != k,
    ensures
        lookup(pre + (seq![(k, v)] + post), k) == Some(v),
{
    lemma_lookup_append(pre, seq![(k, v)] + post, k);
    assert((seq![(k, v)] + post)[0] == (k, v));
}

/// Decoding a re-encoded metadata value yields it back: the title, date,
/// category, tags and template fields and every custom field keep their
/// values.
#[verifier::rlimit(100)]
#[verifier::spinoff_prover]
pub proof fn lemma_meta_round_trip(m: MetaView)
    requires
        meta_wf(m),
    ensures
        decode_meta(encode_meta(m)) == Ok::<MetaView, MetaError>(m),
{
    reveal_strlit("title");
    reveal_strlit("date");
    reveal_strlit("category");
    reveal_strlit("tags");
    reveal_strlit("template");
    let enc = encode_meta(m);
    let c = m.custom_fields;
    let t1: FieldsView = seq![("title"@, FieldValueView::Text(m.title))];
    let t2: FieldsView = match m.date {
        Some(d) => seq![("date"@, FieldValueView::Text(format_date_spec(d)))],
        None => Seq::empty(),
    };
    let t3: FieldsView = match m.category {
        Some(cat) => seq![("category"@, FieldValueView::Text(cat))],
        None => Seq::empty(),
    };
    let t4: FieldsView = match m.tags {
        Some(t) => seq![("tags"@, FieldValueView::TextList(t))],
        None => Seq::empty(),
    };
    let t5: FieldsView = match m.template {
        Some(t) => seq![("template"@, FieldValueView::Text(t))],
        None => Seq::empty(),
    };
    assert(enc == ((((c + t1) + t2) + t3) + t4) + t5);
    assert(forall|j: int| 0 <= j < c.len() ==> !is_reserved((#[trigger] c[j]).0));
    assert(forall|j: int| 0 <= j < t1.len() ==> (#[trigger] t1[j]).0 == "title"@);
    assert(forall|j: int| 0 <= j < t2.len() ==> (#[trigger] t2[j]).0 == "date"@);
    assert(forall|j: int| 0 <= j < t3.len() ==> (#[trigger] t3[j]).0 == "category"@);
    assert(forall|j: int| 0 <= j < t4.len() ==> (#[trigger] t4[j]).0 == "tags"@);
    assert(forall|j: int| 0 <= j < t5.len() ==> (#[trigger] t5[j]).0 == "template"@);
    assert("title"@.len() == 5 && "date"@.len() == 4 && "category"@.len() == 8 && "tags"@.len()
        == 4 && "template"@.len() == 8);
    assert("title"@ != "date"@ && "title"@ != "category"@ && "title"@ != "tags"@ && "title"@
        != "template"@);
    assert("date"@ != "category"@ && "date"@ != "template"@);
    assert("date"@ != "tags"@) by {
        assert("date"@[0] != "tags"@[0]);
    }
    assert("category"@ != "template"@) by {
        assert("category"@[0] != "template"@[0]);
    }
    assert("tags"@ != "category"@ && "tags"@ != "template"@);
    // title
    assert(enc =~~= c + (t1 + (t2 + (t3 + (t4 + t5)))));
    lemma_lookup_block(c, "title"@, FieldValueView::Text(m.title), t2 + (t3 + (t4 + t5)));
    assert(lookup(enc, "title"@) == Some(FieldValueView::Text(m.title)));
    // date
    let pre2 = c + t1;
    assert(forall|j: int| 0 <= j < pre2.len() ==> (#[trigger] pre2[j]).0 != "date"@);
    match m.date {
        Some(d) => {
            assert(enc =~~= pre2 + (t2 + (t3 + (t4 + t5))));
            lemma_lookup_block(
                pre2,
                "date"@,
                FieldValueView::Text(format_date_spec(d)),
                t3 + (t4 + t5),
            );
            lemma_date_round_trip(d);
            assert(decode_date(enc) == Ok::<Option<Date>, MetaError>(Some(d)));
        },
        None => {
            assert(forall|j: int| 0 <= j < enc.len() ==> (#[trigger] enc[j]).0 != "date"@);
            lemma_lookup_none(enc, "date"@);
            assert(decode_date(enc) == Ok::<Option<Date>, MetaError>(None));
        },
    }
    // category
    let pre3 = (c + t1) + t2;
    assert(forall|j: int| 0 <= j < pre3.len() ==> (#[trigger] pre3[j]).0 != "category"@);
    match m.category {
        Some(cat) => {
            assert(enc =~~= pre3 + (t3 + (t4 + t5)));
            lemma_lookup_block(pre3, "category"@, FieldValueView::Text(cat), t4 + t5);
            assert(decode_text_opt(enc, "category"@) == Ok::<Option<Seq<char>>, MetaError>(
                Some(cat),
            ));
        },
        None => {
            assert(forall|j: int| 0 <= j < enc.len() ==> (#[trigger] enc[j]).0 != "category"@);
            lemma_lookup_none(enc, "category"@);
            assert(decode_text_opt(enc, "category"@) == Ok::<Option<Seq<char>>, MetaError>(None));
        },
    }
    // tags
    let pre4 = ((c + t1) + t2) + t3;
    assert(forall|j: int| 0 <= j < pre4.len() ==> (#[trigger] pre4[j]).0 != "tags"@);
    match m.tags {
        Some(t) => {
            assert(enc =~~= pre4 + (t4 + t5));
            lemma_lookup_block(pre4, "tags"@, FieldValueView::TextList(t), t5);
            assert(decode_tags(enc) == Ok::<Option<Seq<Seq<char>>>, MetaError>(Some(t)));
        },
        None => {
            assert(forall|j: int| 0 <= j < enc.len() ==> (#[trigger] enc[j]).0 != "tags"@);
            lemma_lookup_none(enc, "tags"@);
            assert(decode_tags(enc) == Ok::<Option<Seq<Seq<char>>>, MetaError>(None));
        },
    }
    // template
    let pre5 = (((c + t1) + t2) + t3) + t4;
    assert(forall|j: int| 0 <= j < pre5.len() ==> (#[trigger] pre5[j]).0 != "template"@);
    match m.template {
        Some(t) => {
            assert(enc =~~= pre5 + (t5 + Seq::empty()));
            lemma_lookup_block(pre5, "template"@, FieldValueView::Text(t), Seq::empty());
            assert(decode_text_opt(enc, "template"@) == Ok::<Option<Seq<char>>, MetaError>(
                Some(t),
            ));
        },
        None => {
            assert(forall|j: int| 0 <= j < enc.len() ==> (#[trigger] enc[j]).0 != "template"@);
            lemma_lookup_none(enc, "template"@);
            assert(decode_text_opt(enc, "template"@) == Ok::<Option<Seq<char>>, MetaError>(None));
        },
    }
    // custom fields
    let pred = |p: (Seq<char>, FieldValueView)| !is_reserved(p.0);
    Seq::filter_distributes_over_add((((c + t1) + t2) + t3) + t4, t5, pred);
    Seq::filter_distributes_over_add(((c + t1) + t2) + t3, t4, pred);
    Seq::filter_distributes_over_add((c + t1) + t2, t3, pred);
    Seq::filter_distributes_over_add(c + t1, t2, pred);
    Seq::filter_distributes_over_add(c, t1, pred);
    t1.lemma_all_neg_filter_empty(pred);
    t2.lemma_all_neg_filter_empty(pred);
    t3.lemma_all_neg_filter_empty(pred);
    t4.lemma_all_neg_filter_empty(pred);
    t5.lemma_all_neg_filter_empty(pred);
    lemma_filter_all_true(c, pred);
    assert(strip_reserved(enc) =~~= c);
    assert(decode_meta(enc) == Ok::<MetaView, MetaError>(m));
}

/// Whether `key` is one of the five recognized header keys.
pub fn is_reserved_key(key: &str) -> (r: bool)
    ensures
        r == is_reserved(key@),
{
    str_eq(key, "title") || str_eq(key, "date") || str_eq(key, "category") || str_eq(key, "tags")
        || str_eq(key, "template")
}

impl Meta {
    /// Decodes a header field list, exactly as the decode specification
    /// says: `MissingField` without a string `title`, `DateFormat` for a
    /// bad `date`, `Type` for a malformed `category`, `tags` or
    /// `template`, and otherwise the typed metadata with every
    /// unrecognized field preserved.
    pub fn from_fields(fields: Vec<(String, FieldValue)>) -> (r: Result<Meta, Error>)
        ensures
            r is Ok <==> decode_meta(fields_view(fields@)) is Ok,
            r matches Ok(m) ==> decode_meta(fields_view(fields@)) == Ok::<MetaView, MetaError>(m@)
                && meta_wf(m@),
            r matches Err(e) ==> decode_meta(fields_view(fields@)) matches Err(me) && e.kind
                == ErrorKind::Metadata(me),
    {
        let ghost fv = fields_view(fields@);
        let title: String = match lookup_field(&fields, "title") {
            Some(FieldValue::Text(s)) => s.clone(),
            _ => {
                return Err(
                    Error::new(ErrorKind::Metadata(MetaError::MissingField), "title".to_owned()),
                );
            },
        };
        let date: Option<Date> = match lookup_field(&fields, "date") {
            None => None,
            Some(FieldValue::Text(s)) => match parse_date(s.as_str()) {
                Some(d) => Some(d),
                None => {
                    return Err(
                        Error::new(ErrorKind::Metadata(MetaError::DateFormat), "date".to_owned()),
                    );
                },
            },
            Some(_) => {
                return Err(
                    Error::new(ErrorKind::Metadata(MetaError::DateFormat), "date".to_owned()),
                );
            },
        };
        let category: Option<String> = match lookup_field(&fields, "category") {
            None => None,
            Some(FieldValue::Text(s)) => Some(s.clone()),
            Some(_) => {
                return Err(
                    Error::new(ErrorKind::Metadata(MetaError::Type), "category".to_owned()),
                );
            },
        };
        let tags: Option<Vec<String>> = match lookup_field(&fields, "tags") {
            None => None,
            Some(FieldValue::TextList(l)) => Some(clone_strings(l)),
            Some(_) => {
                return Err(Error::new(ErrorKind::Metadata(MetaError::Type), "tags".to_owned()));
            },
        };
        let template: Option<String> = match lookup_field(&fields, "template") {
            None => None,
            Some(FieldValue::Text(s)) => Some(s.clone()),
            Some(_) => {
                return Err(
                    Error::new(ErrorKind::Metadata(MetaError::Type), "template".to_owned()),
                );
            },
        };
        let mut custom: Vec<(String, FieldValue)> = Vec::new();
        let mut rest = fields;
        let ghost mut done: Seq<(String, FieldValue)> = Seq::empty();
        while rest.len() > 0
            invariant
                fv == fields_view(done + rest@),
                fields_view(custom@) =~~= strip_reserved(fields_view(done)),
            decreases rest.len(),
        {
            let ghost rest0 = rest@;
            let p = rest.remove(0);
            let ghost pg = p;
            let reserved = is_reserved_key(p.0.as_str());
            if !reserved {
                custom.push(p);
            }
            proof {
                let pred = |q: (Seq<char>, FieldValueView)| !is_reserved(q.0);
                let dv = fields_view(done);
                assert(fields_view(done.push(pg)) =~~= dv.push((pg.0@, pg.1@)));
                dv.lemma_filter_push((pg.0@, pg.1@), pred);
                if !reserved {
                    assert(fields_view(custom@) =~~= strip_reserved(fields_view(done.push(pg))));
                }
                done = done.push(pg);
                assert(done + rest@ =~~= done.drop_last() + rest0);
            }
        }
        proof {
            assert(done + rest@ =~~= done);
            assert(fields_view(custom@) =~~= strip_reserved(fv));
        }
        let meta = Meta { title, date, category, tags, template, custom_fields: custom };
        proof {
            let pred = |q: (Seq<char>, FieldValueView)| !is_reserved(q.0);
            assert forall|i: int| 0 <= i < meta@.custom_fields.len() implies !is_reserved(
                #[trigger] meta@.custom_fields[i].0,
            ) by {
                fv.lemma_filter_pred(pred, i);
            }
            assert(decode_meta(fv) == Ok::<MetaView, MetaError>(meta@));
        }
        Ok(meta)
    }

    /// Decides well-formedness executably, so that an unverified caller
    /// can test it before re-serializing.
    pub fn well_formed(&self) -> (r: bool)
        ensures
            r == meta_wf(self@),
    {
        let date_ok = match &self.date {
            None => true,
            Some(d) => crate::dates::date_valid(d),
        };
        if !date_ok {
            return false;
        }
        let mut i: usize = 0;
        while i < self.custom_fields.len()
            invariant
                i <= self.custom_fields.len(),
                forall|j: int|
                    0 <= j < i ==> !is_reserved(
                        fields_view(self.custom_fields@)[j].0,
                    ),
        decreases self.custom_fields.len() - i,
        {
            if is_reserved_key(self.custom_fields[i].0.as_str()) {
                proof {
                    assert(self@.custom_fields[i as int].0 == self.custom_fields@[i as int].0@);
                }
                return false;
            }
            i = i + 1;
        }
        true
    }

    /// Re-serializes the metadata for a render context, exactly as the
    /// encode specification says.
    pub fn to_fields(&self) -> (r: Vec<(String, FieldValue)>)
        requires
            meta_wf(self@),
        ensures
            fields_view(r@) == encode_meta(self@),
    {
        let mut out: Vec<(String, FieldValue)> = Vec::new();
        let mut i: usize = 0;
        while i < self.custom_fields.len()
            invariant
                i <= self.custom_fields.len(),
                fields_view(out@) =~~= fields_view(self.custom_fields@).take(i as int),
            decreases self.custom_fields.len() - i,
        {
            let ghost pre = fields_view(out@);
            let p = &self.custom_fields[i];
            out.push((p.0.clone(), p.1.clone()));
            proof {
                assert(fields_view(out@) =~~= pre.push((p.0@, p.1@)));
            }
            i = i + 1;
        }
        proof {
            assert(fields_view(out@) =~~= self@.custom_fields);
        }
        out.push(("title".to_owned(), FieldValue::Text(self.title.clone())));
        match &self.date {
            Some(d) => {
                out.push(("date".to_owned(), FieldValue::Text(format_date(d))));
            },
            None => {},
        }
        match &self.category {
            Some(c) => {
                out.push(("category".to_owned(), FieldValue::Text(c.clone())));
            },
            None => {},
        }
        match &self.tags {
            Some(t) => {
                out.push(("tags".to_owned(), FieldValue::TextList(clone_strings(t))));
            },
            None => {},
        }
        match &self.template {
            Some(t) => {
                out.push(("template".to_owned(), FieldValue::Text(t.clone())));
            },
            None => {},
        }
        proof {
            assert(fields_view(out@) =~~= encode_meta(self@));
        }
        out
    }
}

} // verus!
