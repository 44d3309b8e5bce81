//! Tree indexing: node classification and the fixed generation order.
//!
//! The directory walk hands every visited node over in enumeration order;
//! classification and the ordering that puts every collection before
//! every directory before every file are decided and proved here.

use vstd::prelude::*;

verus! {

/// The kind of an indexed node; the kind order fixes the generation
/// order.
#[derive(Debug, Clone, Copy, PartialEq, Eq, Structural)]
pub enum IndexType {
    Collection,
    Directory,
    File,
}

/// One node of the source tree.
#[derive(Debug)]
pub struct IndexItem {
    /// The node's path.
    pub path: String,
    pub index_type: IndexType,
}

/// The generation rank of a kind: collections first, then directories,
/// then plain files.
pub open spec fn rank(t: IndexType) -> int {
    match t {
        IndexType::Collection => 0,
        IndexType::Directory => 1,
        IndexType::File => 2,
    }
}

/// Classifies one visited node: a directory holding a collection
/// configuration file is a collection (and is not descended into), any
/// other directory is a plain directory, anything else is a file.
pub fn classify(is_dir: bool, has_collection_config: bool) -> (r: IndexType)
    ensures
        r == (if is_dir && has_collection_config {
            IndexType::Collection
        } else if is_dir {
            IndexType::Directory
        } else {
            IndexType::File
        }),
{
    if is_dir && has_collection_config {
        IndexType::Collection
    } else if is_dir {
        IndexType::Directory
    } else {
        IndexType::File
    }
}

/// Keeps the nodes of one kind, in their enumeration order.
pub open spec fn of_kind(items: Seq<IndexItem>, t: IndexType) -> Seq<IndexItem> {
    items.filter(|it: IndexItem| it.index_type == t)
}

/// The generation order of an enumerated node list: every collection
/// node, then every directory node, then every file node, enumeration
/// order kept within each kind.
pub open spec fn arranged(items: Seq<IndexItem>) -> Seq<IndexItem> {
    of_kind(items, IndexType::Collection) + of_kind(items, IndexType::Directory) + of_kind(
        items,
        IndexType::File,
    )
}

/// Orders an enumerated node list for generation, exactly as `arranged`
/// describes.
pub fn index(items: Vec<IndexItem>) -> (r: Vec<IndexItem>)
    ensures
        r@ == arranged(items@),
{
    let ghost all = items@;
    let mut colls: Vec<IndexItem> = Vec::new();
    let mut dirs: Vec<IndexItem> = Vec::new();
    let mut files: Vec<IndexItem> = Vec::new();
    let mut rest = items;
    let ghost mut done: Seq<IndexItem> = Seq::empty();
    while rest.len() > 0
        invariant
            all == done + rest@,
            colls@ =~~= of_kind(done, IndexType::Collection),
            dirs@ =~~= of_kind(done, IndexType::Directory),
            files@ =~~= of_kind(done, IndexType::File),
        decreases rest.len(),
    {
        let ghost rest0 = rest@;
        let it = rest.remove(0);
        let ghost itg = it;
        match it.index_type {
            IndexType::Collection => colls.push(it),
            IndexType::Directory => dirs.push(it),
            IndexType::File => files.push(it),
        }
        proof {
            done.lemma_filter_push(itg, |x: IndexItem| x.index_type == IndexType::Collection);
            done.lemma_filter_push(itg, |x: IndexItem| x.index_type == IndexType::Directory);
            done.lemma_filter_push(itg, |x: IndexItem| x.index_type == IndexType::File);
            done = done.push(itg);
            assert(all =~~= done + rest@);
        }
    }
    proof {
        assert(done =~~= all);
    }
    let mut out = colls;
    out.append(&mut dirs);
    out.append(&mut files);
    proof {
        assert(out@ =~~= arranged(all));
    }
    out
}

/// The generation order invariant: in an arranged list no node of a later
/// kind ever precedes one of an earlier kind — every collection stands
/// before every directory, and every directory before every file.
pub proof fn lemma_generation_order(items: Seq<IndexItem>, i: int, j: int)
    requires
        0 <= i <= j < arranged(items).len(),
    ensures
        rank(arranged(items)[i].index_type) <= rank(arranged(items)[j].index_type),
{
    let a = arranged(items);
    let c = of_kind(items, IndexType::Collection);
    let d = of_kind(items, IndexType::Directory);
    let f = of_kind(items, IndexType::File);
    assert forall|k: int| 0 <= k < c.len() implies rank(c[k].index_type) == 0 by {
        items.lemma_filter_pred(|x: IndexItem| x.index_type == IndexType::Collection, k);
    }
    assert forall|k: int| 0 <= k < d.len() implies rank(d[k].index_type) == 1 by {
        items.lemma_filter_pred(|x: IndexItem| x.index_type == IndexType::Directory, k);
    }
    assert forall|k: int| 0 <= k < f.len() implies rank(f[k].index_type) == 2 by {
        items.lemma_filter_pred(|x: IndexItem| x.index_type == IndexType::File, k);
    }
    assert(a =~~= (c + d) + f);
}

} // verus!
