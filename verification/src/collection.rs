//! Collection resolution: which files are a collection's entries, the
//! date order they are bound in, and the render plan a resolved
//! collection produces.

use vstd::prelude::*;
use crate::config::{CollectionConfig, Config};
use crate::dates::{opt_date_le, opt_date_le_exec, Date};
use crate::entry::{CollectionBinding, Entry};
use crate::paths::{ext_of, file_name_of, join_of, path_extension, path_file_name, path_join,
    name_stem, strip_ext_of};
use crate::rss::{build_rss_feed, feed_matches, RssFeed};
use crate::text::{eq_ignore_ascii_case_spec, str_eq, str_eq_ignore_ascii_case};

verus! {

/// The entries without a date, in their current order.
pub open spec fn dateless_pred() -> spec_fn(Entry) -> bool {
    |e: Entry| e.meta.date is None
}

/// Non-increasing date order: no entry is followed by a later-dated one,
/// and a missing date sorts below every real one.
pub open spec fn sorted_desc(s: Seq<Entry>) -> bool {
    forall|i: int, j: int|
        0 <= i <= j < s.len() ==> opt_date_le(#[trigger] s[j].meta.date, #[trigger] s[i].meta.date)
}

/// The entries carrying exactly the date `d`, in their current order.
pub open spec fn same_date_pred(d: Option<Date>) -> spec_fn(Entry) -> bool {
    |e: Entry| e.meta.date == d
}

/// The date order on optional dates is total.
proof fn lemma_opt_date_total(a: Option<Date>, b: Option<Date>)
    ensures
        opt_date_le(a, b) || opt_date_le(b, a),
{
}

/// The date order on optional dates is transitive.
proof fn lemma_opt_date_trans(a: Option<Date>, b: Option<Date>, c: Option<Date>)
    requires
        opt_date_le(a, b),
        opt_date_le(b, c),
    ensures
        opt_date_le(a, c),
{
}

/// Sorts a collection's entries by non-increasing date: dated entries
/// first, newest to oldest; entries without a date after all dated ones,
/// their relative order kept; nothing is added, dropped or changed.
pub fn sort_entries(entries: Vec<Entry>) -> (r: Vec<Entry>)
    ensures
        sorted_desc(r@),
        r@.to_multiset() == entries@.to_multiset(),
        r@.filter(dateless_pred()) == entries@.filter(dateless_pred()),
        forall|d: Option<Date>|
            #[trigger] r@.filter(same_date_pred(d)) == entries@.filter(same_date_pred(d)),
        r@.len() == entries@.len(),
{
    let ghost all = entries@;
    let mut out: Vec<Entry> = Vec::new();
    let mut rest = entries;
    let ghost mut done: Seq<Entry> = Seq::empty();
    while rest.len() > 0
        invariant
            all == done + rest@,
            sorted_desc(out@),
            out@.to_multiset() == done.to_multiset(),
            out@.filter(dateless_pred()) == done.filter(dateless_pred()),
            forall|d: Option<Date>|
                #[trigger] out@.filter(same_date_pred(d)) == done.filter(same_date_pred(d)),
            out@.len() == done.len(),
        decreases rest.len(),
    {
        let e = rest.remove(0);
        let ghost eg = e;
        let mut pos: usize = 0;
        loop
            invariant
                pos <= out.len(),
                forall|j: int| 0 <= j < pos ==> opt_date_le(e.meta.date, out@[j].meta.date),
            ensures
                pos <= out.len(),
                forall|j: int| 0 <= j < pos ==> opt_date_le(e.meta.date, out@[j].meta.date),
                pos < out.len() ==> !opt_date_le(e.meta.date, out@[pos as int].meta.date),
            decreases out.len() - pos,
        {
            if pos == out.len() {
                break;
            }
            if !opt_date_le_exec(&e.meta.date, &out[pos].meta.date) {
                break;
            }
            pos = pos + 1;
        }
        let ghost out0 = out@;
        let ghost posg = pos as int;
        out.insert(pos, e);
        proof {
            broadcast use vstd::seq_lib::group_to_multiset_ensures;

            let pred = dateless_pred();
            out0.insert_ensures(posg, eg);
            // order: everything before the slot is at least `eg`, and
            // everything from the slot on is strictly below it.
            assert forall|j: int| posg <= j < out0.len() implies opt_date_le(
                out0[j].meta.date,
                eg.meta.date,
            ) by {
                if posg < out0.len() {
                    lemma_opt_date_total(eg.meta.date, out0[posg].meta.date);
                    assert(opt_date_le(out0[j].meta.date, out0[posg].meta.date));
                }
            }
            assert forall|i: int, j: int| 0 <= i <= j < out@.len() implies opt_date_le(
                #[trigger] out@[j].meta.date,
                #[trigger] out@[i].meta.date,
            ) by {
                if i < posg {
                    assert(out@[i] == out0[i]);
                } else if i > posg {
                    assert(out@[i] == out0[i - 1]);
                }
                if j < posg {
                    assert(out@[j] == out0[j]);
                } else if j > posg {
                    assert(out@[j] == out0[j - 1]);
                }
            }
            // multiset: one more copy of `eg`.
            let take = out0.subrange(0, posg);
            let skip = out0.subrange(posg, out0.len() as int);
            vstd::seq_lib::lemma_multiset_commutative(take.push(eg), skip);
            vstd::seq_lib::lemma_multiset_commutative(take, skip);
            assert(out0 =~= take + skip);
            assert(out@.to_multiset() =~= out0.to_multiset().insert(eg));
            assert(done.push(eg).to_multiset() =~= done.to_multiset().insert(eg));
            // stability for dateless entries: a dated entry lands before
            // every dateless one, a dateless entry lands at the very end.
            Seq::filter_distributes_over_add(take.push(eg), skip, pred);
            Seq::filter_distributes_over_add(take, skip, pred);
            take.lemma_filter_push(eg, pred);
            done.lemma_filter_push(eg, pred);
            if eg.meta.date is None {
                assert(posg == out0.len());
                assert(skip.filter(pred) =~= Seq::<Entry>::empty());
                assert(out@.filter(pred) =~= done.push(eg).filter(pred));
            } else {
                assert(out@.filter(pred) =~= done.push(eg).filter(pred));
            }
            // stability within every date class: the new entry lands
            // after every earlier entry of its own date.
            assert forall|d: Option<Date>| #[trigger] out@.filter(same_date_pred(d))
                == done.push(eg).filter(same_date_pred(d)) by {
                let pd = same_date_pred(d);
                Seq::filter_distributes_over_add(take.push(eg), skip, pd);
                Seq::filter_distributes_over_add(take, skip, pd);
                take.lemma_filter_push(eg, pd);
                done.lemma_filter_push(eg, pd);
                if d == eg.meta.date {
                    assert forall|j: int| 0 <= j < skip.len() implies !pd(#[trigger] skip[j]) by {
                        if skip[j].meta.date == eg.meta.date {
                            assert(skip[j] == out0[posg + j]);
                            assert(opt_date_le(out0[posg + j].meta.date, out0[posg].meta.date));
                            lemma_opt_date_trans(
                                eg.meta.date,
                                out0[posg + j].meta.date,
                                out0[posg].meta.date,
                            );
                        }
                    }
                    skip.lemma_all_neg_filter_empty(pd);
                    assert(out@.filter(pd) =~= done.push(eg).filter(pd));
                } else {
                    assert(out@.filter(pd) =~= done.push(eg).filter(pd));
                }
            }
            done = done.push(eg);
        }
    }
    proof {
        assert(done =~= all);
    }
    out
}

/// Whether a directory entry named `name` is one of the collection's
/// content files: its extension matches the configured content extension
/// up to ASCII case, and its stem is not the reserved index name.
pub open spec fn is_collection_entry_spec(name: Seq<char>, content_ext: Seq<char>) -> bool {
    &&& eq_ignore_ascii_case_spec(ext_of(name), content_ext)
    &&& strip_ext_of(file_name_of(name)) != "index"@
}

/// Decides whether the file named `name` is loaded as a member of the
/// collection.
pub fn is_collection_entry(name: &str, content_ext: &str) -> (r: bool)
    ensures
        r == is_collection_entry_spec(name@, content_ext@),
{
    let ext = path_extension(name);
    if !str_eq_ignore_ascii_case(ext.as_str(), content_ext) {
        return false;
    }
    let bare = path_file_name(name);
    proof {
        crate::paths::lemma_file_name_no_slash(name@);
    }
    let stem = name_stem(bare.as_str());
    !str_eq(stem.as_str(), "index")
}

/// Who a render request hands to the template as its context.
#[derive(Debug, Clone, Copy, PartialEq, Eq, Structural)]
pub enum RenderSource {
    /// One bound entry, by its index in the binding.
    BindingEntry(usize),
    /// The index entry, with the whole binding attached.
    IndexEntry,
    /// The binding alone.
    Binding,
}

/// One page to render: a template, its context and where the result
/// goes, relative to the output root.
#[derive(Debug)]
pub struct RenderRequest {
    /// The template, named by its path relative to the source root.
    pub template: String,
    pub source: RenderSource,
    pub out_child_path: String,
}

/// A collection's RSS document and where it goes, relative to the
/// output root.
#[derive(Debug)]
pub struct RssOutput {
    pub out_path: String,
    pub feed: RssFeed,
}

/// Everything a resolved collection asks the orchestrator to produce.
#[derive(Debug)]
pub struct CollectionPlan {
    /// The sorted entries with the RSS information, as handed to index
    /// and connection templates.
    pub binding: CollectionBinding,
    /// The reserved index entry, if the collection has one.
    pub index_entry: Option<Entry>,
    /// The pages to render, in order: one per configured template and
    /// entry, then the index page, then one per connection template.
    pub requests: Vec<RenderRequest>,
    /// The RSS document, if one is configured.
    pub rss: Option<RssOutput>,
    /// The index entry exists but declares no template, so no landing
    /// page is rendered; worth a warning.
    pub index_missing_template: bool,
}

/// The configured per-entry templates, none by default.
pub open spec fn tpl_list(c: crate::config::CollectionConfigView) -> Seq<Seq<char>> {
    match c.templates {
        Some(t) => t,
        None => Seq::empty(),
    }
}

/// The configured connection templates, none by default.
pub open spec fn conn_list(c: crate::config::CollectionConfigView) -> Seq<Seq<char>> {
    match c.connections {
        Some(t) => t,
        None => Seq::empty(),
    }
}

/// A row-major position lies inside the filled rows.
proof fn lemma_row_bound(x: int, y: int, a: int, n: int)
    requires
        0 <= x < a,
        0 <= y < n,
    ensures
        0 <= x * n + y < a * n,
{
    assert(x * n + y < a * n && 0 <= x * n + y) by (nonlinear_arith)
        requires
            0 <= x < a,
            0 <= y < n,
    ;
}

/// One per-entry page request is right: the given template, the entry
/// at `b` as context, and the entry's own output path.
pub open spec fn page_req_ok(q: RenderRequest, t: Seq<char>, ent: Seq<Entry>, b: int) -> bool {
    &&& q.template@ == t
    &&& q.source matches RenderSource::BindingEntry(k) && k as int == b
    &&& q.out_child_path@ == ent[b].location.target_child_path@
}

/// Resolves one collection: sorts the loaded entries by non-increasing
/// date, binds them with the configured RSS location, and plans one
/// page per entry and per-entry template, the index entry's landing page
/// through its own declared template, one page per connection template
/// written below the collection's directory, and the RSS document.
pub fn resolve_collection(
    entries: Vec<Entry>,
    index_entry: Option<Entry>,
    collection_child: &str,
    config: &Config,
    collection_cfg: &CollectionConfig,
) -> (r: CollectionPlan)
    ensures
        sorted_desc(r.binding.entries@),
        r.binding.entries@.to_multiset() == entries@.to_multiset(),
        r.binding.entries@.filter(dateless_pred()) == entries@.filter(dateless_pred()),
        r.binding.entries@.len() == entries@.len(),
        (match collection_cfg.rss {
            Some(ref p) => r.binding.rss matches Some(i) && i.path@ == p@ && i.route@ == seq!['/']
                + p@,
            None => r.binding.rss is None,
        }),
        r.index_entry == index_entry,
        r.index_missing_template == (index_entry matches Some(e) && e.meta.template is None),
        ({
            let ts = tpl_list(collection_cfg@);
            let cs = conn_list(collection_cfg@);
            let n = r.binding.entries@.len() as int;
            let pages = ts.len() * n;
            let idx: int = if index_entry matches Some(e) && e.meta.template is Some {
                1
            } else {
                0
            };
            &&& r.requests@.len() == pages + idx + cs.len()
            &&& forall|x: int, y: int|
                0 <= x < ts.len() && 0 <= y < n ==> page_req_ok(
                    #[trigger] r.requests@[x * n + y],
                    ts[x],
                    r.binding.entries@,
                    y,
                )
            &&& (index_entry matches Some(e) ==> (e.meta.template matches Some(t) ==> {
                let q = r.requests@[pages];
                &&& q.template@ == t@
                &&& q.source is IndexEntry
                &&& q.out_child_path@ == e.location.target_child_path@
            }))
            &&& forall|ci: int|
                0 <= ci < cs.len() ==> {
                    let q = #[trigger] r.requests@[pages + idx + ci];
                    &&& q.template@ == cs[ci]
                    &&& q.source is Binding
                    &&& q.out_child_path@ == join_of(collection_child@, cs[ci])
                }
        }),
        (match collection_cfg.rss {
            Some(ref p) => r.rss matches Some(ro) && ro.out_path@ == p@ && feed_matches(
                ro.feed,
                r.binding.entries@,
                config.base_url@,
                p@,
                collection_cfg@,
            ),
            None => r.rss is None,
        }),
{
    let sorted = sort_entries(entries);
    let binding = CollectionBinding::new(sorted, collection_cfg);
    let n = binding.entries.len();
    let ghost ng = n as int;
    let ghost ts = tpl_list(collection_cfg@);
    let mut requests: Vec<RenderRequest> = Vec::new();
    match &collection_cfg.templates {
        Some(templates) => {
            let mut a: usize = 0;
            while a < templates.len()
                invariant
                    a <= templates.len(),
                    n == binding.entries@.len(),
                    ng == n as int,
                    ng == binding.entries@.len(),
                    ts == tpl_list(collection_cfg@),
                    ts.len() == templates.len(),
                    forall|x: int| 0 <= x < ts.len() ==> ts[x] == templates@[x]@,
                    requests@.len() == a * ng,
                    forall|x: int, y: int|
                        0 <= x < a && 0 <= y < ng ==> page_req_ok(
                            #[trigger] requests@[x * ng + y],
                            ts[x],
                            binding.entries@,
                            y,
                        ),
                decreases templates.len() - a,
            {
                let ghost row_start = requests@.len() as int;
                let mut b: usize = 0;
                while b < n
                    invariant
                        b <= n,
                        n == binding.entries@.len(),
                        ng == n as int,
                        a < templates.len(),
                        ts.len() == templates.len(),
                        forall|x: int| 0 <= x < ts.len() ==> ts[x] == templates@[x]@,
                        row_start == a * ng,
                        requests@.len() == row_start + b,
                        forall|x: int, y: int|
                            0 <= x < a && 0 <= y < ng ==> page_req_ok(
                                #[trigger] requests@[x * ng + y],
                                ts[x],
                                binding.entries@,
                                y,
                            ),
                        forall|y: int|
                            0 <= y < b ==> page_req_ok(
                                #[trigger] requests@[row_start + y],
                                ts[a as int],
                                binding.entries@,
                                y,
                            ),
                    decreases n - b,
                {
                    requests.push(
                        RenderRequest {
                            template: templates[a].clone(),
                            source: RenderSource::BindingEntry(b),
                            out_child_path: binding.entries[b].location.target_child_path.clone(),
                        },
                    );
                    proof {
                        assert forall|x: int, y: int| 0 <= x < a && 0 <= y < ng implies
                            page_req_ok(
                            #[trigger] requests@[x * ng + y],
                            ts[x],
                            binding.entries@,
                            y,
                        ) by {
                            lemma_row_bound(x, y, a as int, ng);
                        }
                    }
                    b = b + 1;
                }
                proof {
                    assert((a + 1) * ng == a * ng + ng) by (nonlinear_arith);
                    assert forall|x: int, y: int| 0 <= x < a + 1 && 0 <= y < ng implies
                        page_req_ok(
                        #[trigger] requests@[x * ng + y],
                        ts[x],
                        binding.entries@,
                        y,
                    ) by {
                        if x < a {
                            lemma_row_bound(x, y, a as int, ng);
                            assert(page_req_ok(requests@[x * ng + y], ts[x], binding.entries@, y));
                        } else {
                            assert(x * ng + y == row_start + y);
                        }
                    }
                }
                a = a + 1;
            }
        },
        None => {},
    }
    proof {
        assert(requests@.len() == ts.len() * ng);
    }
    let ghost pages = requests@.len() as int;
    let ghost base = requests@;
    let mut index_missing_template = false;
    match &index_entry {
        None => {},
        Some(ie) => {
            match &ie.meta.template {
                Some(t) => {
                    requests.push(
                        RenderRequest {
                            template: t.clone(),
                            source: RenderSource::IndexEntry,
                            out_child_path: ie.location.target_child_path.clone(),
                        },
                    );
                    proof {
                        assert(requests@ == base.push(requests@[pages]));
                        assert(requests@[pages].template@ == t@);
                        assert(requests@[pages].source is IndexEntry);
                        assert(requests@[pages].out_child_path@
                            == ie.location.target_child_path@);
                    }
                },
                None => {
                    index_missing_template = true;
                },
            }
        },
    }
    let index_entry_kept: Option<Entry> = index_entry;
    let ghost iek = index_entry_kept;
    let ghost idx: int = requests@.len() - pages;
    let ghost with_index = requests@;
    proof {
        match iek {
            Some(e) => {
                match e.meta.template {
                    Some(t) => {
                        assert(idx == 1);
                        assert(with_index[pages].template@ == t@);
                        assert(with_index[pages].source is IndexEntry);
                        assert(with_index[pages].out_child_path@
                            == e.location.target_child_path@);
                    },
                    None => {},
                }
            },
            None => {},
        }
    }
    proof {
        assert forall|x: int, y: int| 0 <= x < ts.len() && 0 <= y < ng implies page_req_ok(
            #[trigger] with_index[x * ng + y],
            ts[x],
            binding.entries@,
            y,
        ) by {
            lemma_row_bound(x, y, ts.len() as int, ng);
            assert(with_index[x * ng + y] == base[x * ng + y]);
            assert(page_req_ok(base[x * ng + y], ts[x], binding.entries@, y));
        }
    }
    let mut conn_reqs: Vec<RenderRequest> = Vec::new();
    match &collection_cfg.connections {
        Some(connections) => {
            let ghost cs = conn_list(collection_cfg@);
            let mut ci: usize = 0;
            while ci < connections.len()
                invariant
                    ci <= connections.len(),
                    cs == conn_list(collection_cfg@),
                    cs.len() == connections.len(),
                    forall|x: int| 0 <= x < cs.len() ==> cs[x] == connections@[x]@,
                    conn_reqs@.len() == ci,
                    forall|k: int|
                        0 <= k < ci ==> {
                            let q = #[trigger] conn_reqs@[k];
                            &&& q.template@ == cs[k]
                            &&& q.source is Binding
                            &&& q.out_child_path@ == join_of(collection_child@, cs[k])
                        },
                decreases connections.len() - ci,
            {
                let out_child_path = path_join(collection_child, connections[ci].as_str());
                conn_reqs.push(
                    RenderRequest {
                        template: connections[ci].clone(),
                        source: RenderSource::Binding,
                        out_child_path,
                    },
                );
                ci = ci + 1;
            }
        },
        None => {},
    }
    let ghost connv = conn_reqs@;
    requests.append(&mut conn_reqs);
    proof {
        assert(requests@ == with_index + connv);
        assert forall|x: int, y: int| 0 <= x < ts.len() && 0 <= y < ng implies page_req_ok(
            #[trigger] requests@[x * ng + y],
            ts[x],
            binding.entries@,
            y,
        ) by {
            lemma_row_bound(x, y, ts.len() as int, ng);
            assert(with_index[x * ng + y] == requests@[x * ng + y]);
            assert(page_req_ok(with_index[x * ng + y], ts[x], binding.entries@, y));
        }
        if idx == 1 {
            assert(requests@[pages] == with_index[pages]);
        }
        assert forall|k: int| 0 <= k < connv.len() implies requests@[pages + idx + k] == connv[k]
            by {}
    }
    let rss: Option<RssOutput> = match &collection_cfg.rss {
        Some(p) => {
            let feed = build_rss_feed(&binding.entries, p.as_str(), config, collection_cfg);
            Some(RssOutput { out_path: p.clone(), feed })
        },
        None => None,
    };
    CollectionPlan {
        binding,
        index_entry: index_entry_kept,
        requests,
        rss,
        index_missing_template,
    }
}

} // verus!
