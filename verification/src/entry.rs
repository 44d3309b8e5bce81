//! Content entries and the aggregate binding a collection exposes to its
//! index and connection templates.

use vstd::prelude::*;
use crate::config::CollectionConfig;
use crate::error::{Error, ErrorKind};
use crate::location::EntryLocation;
use crate::meta::{decode_meta, Meta};
use crate::values::{fields_view, FieldValue};

verus! {

/// One piece of loaded content: its typed header, its resolved location
/// and its rendered body.
#[derive(Debug)]
pub struct Entry {
    pub meta: Meta,
    pub location: EntryLocation,
    /// The rendered body.
    pub content: String,
}

/// Where a collection's RSS document lives.
#[derive(Debug)]
pub struct RssInfo {
    /// The output path, relative to the output root.
    pub path: String,
    /// The root-relative URL of the document.
    pub route: String,
}

/// The aggregate view of a collection: its entries, sorted, and its RSS
/// output if one is configured.
#[derive(Debug)]
pub struct CollectionBinding {
    pub entries: Vec<Entry>,
    pub rss: Option<RssInfo>,
}

impl Entry {
    /// Assembles an entry from its decoded header fields, its rendered
    /// body and its resolved location. Fails exactly when the header
    /// does not decode, labelling the failure with the source path.
    pub fn from_parts(
        header: Vec<(String, FieldValue)>,
        body: String,
        location: EntryLocation,
    ) -> (r: Result<Entry, Error>)
        ensures
            r is Ok <==> decode_meta(fields_view(header@)) is Ok,
            r matches Ok(e) ==> decode_meta(fields_view(header@)) matches Ok(mv) && e.meta@ == mv
                && e.content == body && e.location == location,
            r matches Err(err) ==> decode_meta(fields_view(header@)) matches Err(me) && err.kind
                == ErrorKind::Metadata(me),
    {
        match Meta::from_fields(header) {
            Ok(meta) => Ok(Entry { meta, location, content: body }),
            Err(e) => {
                let kind = e.kind;
                Err(e.wrap(kind, location.source_path.clone()))
            },
        }
    }
}

impl CollectionBinding {
    /// Binds sorted entries together with the collection's RSS location:
    /// the configured path and its root-relative route.
    pub fn new(entries: Vec<Entry>, config: &CollectionConfig) -> (r: CollectionBinding)
        ensures
            r.entries == entries,
            match config.rss {
                Some(ref p) => r.rss matches Some(info) && info.path@ == p@ && info.route@ == seq![
                    '/',
                ] + p@,
                None => r.rss is None,
            },
    {
        let rss: Option<RssInfo> = match &config.rss {
            Some(p) => {
                proof {
                    reveal_strlit("/");
                }
                let mut route = String::new();
                route.append("/");
                route.append(p.as_str());
                proof {
                    assert(route@ =~= seq!['/'] + p@);
                }
                Some(RssInfo { path: p.clone(), route })
            },
            None => None,
        };
        CollectionBinding { entries, rss }
    }
}

} // verus!
