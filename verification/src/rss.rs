//! The RSS 2.0 document model and its assembly from a collection's
//! sorted entries. XML serialization is an external collaborator; this
//! module only populates the document.

use vstd::prelude::*;
use chrono::{Datelike, Timelike};
use crate::config::{CollectionConfig, CollectionConfigView, Config};
use crate::dates::{epoch, epoch_spec, valid_time, Date, DateTime};
use crate::entry::Entry;

verus! {

/// A whole RSS document: one channel under the `rss` root element.
#[derive(Debug)]
pub struct RssFeed {
    pub version: String,
    pub atom_namespace: String,
    pub channels: Vec<RssChannel>,
}

/// One RSS channel.
#[derive(Debug)]
pub struct RssChannel {
    pub title: String,
    pub link: String,
    pub atom_link: RssAtomLink,
    pub description: String,
    pub last_build_date: DateTime,
    pub generator: String,
    pub items: Vec<RssItem>,
}

/// One item of a channel.
#[derive(Debug)]
pub struct RssItem {
    pub title: String,
    pub link: String,
    pub description: String,
    pub guid: RssGuid,
    pub pub_date: DateTime,
}

/// An item's GUID: the link, with a flag saying whether it is a real
/// permalink.
#[derive(Debug)]
pub struct RssGuid {
    pub value: String,
    pub is_permalink: bool,
}

/// The channel's self-referential atom link.
#[derive(Debug)]
pub struct RssAtomLink {
    pub href: String,
    pub rel: String,
    pub mime_type: String,
}

impl RssAtomLink {
    /// The self link of a channel published at `link`.
    pub fn from_link(link: String) -> (r: RssAtomLink)
        ensures
            r.href == link,
            r.rel@ == "self"@,
            r.mime_type@ == "application/rss+xml"@,
    {
        RssAtomLink {
            href: link,
            rel: "self".to_owned(),
            mime_type: "application/rss+xml".to_owned(),
        }
    }
}

/// Relies on chrono::Utc::now, read once when a channel is assembled.
/// Nothing is assumed of the clock beyond the documented field ranges of
/// a calendar date and a time of day.
#[verifier::external_body]
fn now_utc() -> (r: DateTime)
    ensures
        valid_time(r),
        1 <= r.date.month <= 12,
        1 <= r.date.day <= 31,
{
    let now = chrono::Utc::now().naive_utc();
    let year = if now.year() < 0 {
        0u32
    } else {
        now.year() as u32
    };
    DateTime {
        date: Date { year, month: now.month() as u8, day: now.day() as u8 },
        hour: now.hour() as u8,
        minute: now.minute() as u8,
        second: now.second() as u8,
    }
}

impl RssChannel {
    /// A channel with the given title, link, description and items, a
    /// self-referential atom link, this generator's name, and the
    /// assembly time as its last-build date.
    pub fn new(title: String, link: String, description: String, items: Vec<RssItem>) -> (r:
        RssChannel)
        ensures
            r.title == title,
            r.link == link,
            r.description == description,
            r.items == items,
            r.atom_link.href == link,
            r.atom_link.rel@ == "self"@,
            r.atom_link.mime_type@ == "application/rss+xml"@,
            r.generator@ == "renatic"@,
            valid_time(r.last_build_date),
    {
        let atom_link = RssAtomLink::from_link(link.clone());
        RssChannel {
            title,
            link,
            atom_link,
            description,
            last_build_date: now_utc(),
            generator: "renatic".to_owned(),
            items,
        }
    }
}

impl RssFeed {
    /// An RSS 2.0 document holding exactly `channel`.
    pub fn from_channel(channel: RssChannel) -> (r: RssFeed)
        ensures
            r.version@ == "2.0"@,
            r.atom_namespace@ == "http://www.w3.org/2005/Atom"@,
            r.channels@ == seq![channel],
    {
        let mut channels: Vec<RssChannel> = Vec::new();
        channels.push(channel);
        proof {
            assert(channels@ =~= seq![channel]);
        }
        RssFeed {
            version: "2.0".to_owned(),
            atom_namespace: "http://www.w3.org/2005/Atom".to_owned(),
            channels,
        }
    }
}

/// Whether a collection publishes a page per entry: it names at least
/// one per-entry template. Entry links point at those pages; without
/// them they fall back to fragment links on the collection's page.
pub open spec fn has_content_of(c: CollectionConfigView) -> bool {
    c.templates matches Some(ts) && ts.len() > 0
}

/// The link of one entry's RSS item: its own page when the collection
/// publishes entry pages, else a fragment named by the entry's stem.
pub open spec fn rss_link_of(base: Seq<char>, e: Entry, has_content: bool) -> Seq<char> {
    if has_content {
        base + e.location.short_route@
    } else {
        base + seq!['#'] + e.location.file_stem@
    }
}

/// The timestamp of one entry's RSS item: its date at noon, or the
/// sentinel minimum for an entry without a date.
pub open spec fn rss_date_of(e: Entry) -> DateTime {
    match e.meta.date {
        Some(d) => DateTime { date: d, hour: 12, minute: 0, second: 0 },
        None => epoch_spec(),
    }
}

/// One RSS item carries its entry faithfully.
pub open spec fn item_matches(it: RssItem, e: Entry, base: Seq<char>, has_content: bool) -> bool {
    &&& it.title == e.meta.title
    &&& it.description == e.content
    &&& it.link@ == rss_link_of(base, e, has_content)
    &&& it.guid.value@ == it.link@
    &&& it.guid.is_permalink == has_content
    &&& it.pub_date == rss_date_of(e)
}

/// A whole assembled feed carries its collection faithfully: one channel
/// at `base_url/rss_path`, titled and described by the collection's
/// configuration, with one item per entry in order.
pub open spec fn feed_matches(
    feed: RssFeed,
    entries: Seq<Entry>,
    base: Seq<char>,
    rss_path: Seq<char>,
    c: CollectionConfigView,
) -> bool {
    &&& feed.version@ == "2.0"@
    &&& feed.atom_namespace@ == "http://www.w3.org/2005/Atom"@
    &&& feed.channels@.len() == 1
    &&& ({
        let ch = feed.channels@[0];
        &&& ch.title@ == c.title
        &&& ch.description@ == c.description
        &&& ch.link@ == base + seq!['/'] + rss_path
        &&& ch.atom_link.href@ == ch.link@
        &&& ch.atom_link.rel@ == "self"@
        &&& ch.atom_link.mime_type@ == "application/rss+xml"@
        &&& ch.generator@ == "renatic"@
        &&& valid_time(ch.last_build_date)
        &&& ch.items@.len() == entries.len()
        &&& forall|i: int|
            0 <= i < entries.len() ==> item_matches(
                #[trigger] ch.items@[i],
                entries[i],
                base,
                has_content_of(c),
            )
    })
}

/// Assembles a collection's RSS document: one channel at
/// `base_url/rss_path`, one item per entry in the given order, each
/// linked, dated and flagged as the item specification says. An entry
/// without a date is still emitted, with the sentinel timestamp.
pub fn build_rss_feed(
    entries: &Vec<Entry>,
    rss_path: &str,
    config: &Config,
    collection_cfg: &CollectionConfig,
) -> (r: RssFeed)
    ensures
        feed_matches(r, entries@, config.base_url@, rss_path@, collection_cfg@),
{
    let has_content: bool = match &collection_cfg.templates {
        Some(ts) => ts.len() > 0,
        None => false,
    };
    let mut items: Vec<RssItem> = Vec::new();
    let mut i: usize = 0;
    while i < entries.len()
        invariant
            i <= entries.len(),
            items@.len() == i,
            has_content == has_content_of(collection_cfg@),
            forall|j: int|
                0 <= j < i ==> item_matches(
                    #[trigger] items@[j],
                    entries@[j],
                    config.base_url@,
                    has_content,
                ),
        decreases entries.len() - i,
    {
        let e = &entries[i];
        let mut link = config.base_url.clone();
        if has_content {
            link.append(e.location.short_route.as_str());
        } else {
            proof {
                reveal_strlit("#");
            }
            link.append("#");
            link.append(e.location.file_stem.as_str());
            proof {
                assert(link@ =~= config.base_url@ + seq!['#'] + e.location.file_stem@);
            }
        }
        let pub_date: DateTime = match &e.meta.date {
            Some(d) => DateTime { date: *d, hour: 12, minute: 0, second: 0 },
            None => epoch(),
        };
        let guid = RssGuid { value: link.clone(), is_permalink: has_content };
        items.push(
            RssItem {
                title: e.meta.title.clone(),
                link,
                description: e.content.clone(),
                guid,
                pub_date,
            },
        );
        i = i + 1;
    }
    proof {
        reveal_strlit("/");
    }
    let mut link = config.base_url.clone();
    link.append("/");
    link.append(rss_path);
    proof {
        assert(link@ =~= config.base_url@ + seq!['/'] + rss_path@);
    }
    let channel = RssChannel::new(
        collection_cfg.title.clone(),
        link,
        collection_cfg.description.clone(),
        items,
    );
    RssFeed::from_channel(channel)
}

} // verus!
