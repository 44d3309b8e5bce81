use renatic::collection::{is_collection_entry, resolve_collection, RenderSource};
use renatic::config::{CollectionConfig, Config};
use renatic::dates::{Date, DateTime};
use renatic::entry::Entry;
use renatic::location::EntryLocation;
use renatic::meta::Meta;
use renatic::rss::{build_rss_feed, RssAtomLink, RssChannel, RssFeed, RssItem, RssGuid};

fn config() -> Config {
    Config {
        base_url: "https://www.example.com".to_string(),
        ignore_hidden: true,
        ignore_paths: vec![],
        template_ext: "html".to_string(),
        target_ext: "html".to_string(),
        content_ext: "md".to_string(),
    }
}

fn entry(stem: &str, title: &str, date: Option<Date>) -> Entry {
    let source = format!("/src/posts/{stem}.md");
    let location = EntryLocation::from_paths(&source, "/src", "/out", "html").unwrap();
    Entry {
        meta: Meta {
            title: title.to_string(),
            date,
            category: None,
            tags: None,
            template: None,
            custom_fields: vec![],
        },
        location,
        content: format!("<p>{title}</p>"),
    }
}

fn collection_cfg(templates: Option<Vec<&str>>, rss: Option<&str>) -> CollectionConfig {
    CollectionConfig {
        title: "My feed".to_string(),
        description: "About things".to_string(),
        templates: templates.map(|t| t.iter().map(|s| s.to_string()).collect()),
        connections: None,
        rss: rss.map(|s| s.to_string()),
    }
}

#[test]
fn feed_without_entry_pages_uses_fragment_links() {
    let a = entry("a", "A", Some(Date { year: 2024, month: 1, day: 1 }));
    let b = entry("b", "B", Some(Date { year: 2024, month: 6, day: 1 }));
    let cfg = config();
    let ccfg = collection_cfg(None, Some("posts/feed.xml"));
    let plan = resolve_collection(vec![a, b], None, "posts", &cfg, &ccfg);
    let rss = plan.rss.as_ref().unwrap();
    assert_eq!(rss.out_path, "posts/feed.xml");
    let channel = &rss.feed.channels[0];
    assert_eq!(channel.title, "My feed");
    assert_eq!(channel.description, "About things");
    assert_eq!(channel.link, "https://www.example.com/posts/feed.xml");
    let titles: Vec<&str> = channel.items.iter().map(|i| i.title.as_str()).collect();
    assert_eq!(titles, vec!["B", "A"]);
    assert_eq!(channel.items[0].link, "https://www.example.com#b");
    assert_eq!(channel.items[1].link, "https://www.example.com#a");
    for item in &channel.items {
        assert!(!item.guid.is_permalink);
        assert_eq!(item.guid.value, item.link);
    }
    assert_eq!(
        channel.items[0].pub_date,
        DateTime { date: Date { year: 2024, month: 6, day: 1 }, hour: 12, minute: 0, second: 0 }
    );
}

#[test]
fn feed_with_entry_pages_uses_short_routes() {
    let a = entry("a", "A", Some(Date { year: 2024, month: 1, day: 1 }));
    let cfg = config();
    let ccfg = collection_cfg(Some(vec!["post.html"]), Some("posts/feed.xml"));
    let feed = build_rss_feed(&vec![a], "posts/feed.xml", &cfg, &ccfg);
    let item = &feed.channels[0].items[0];
    assert_eq!(item.link, "https://www.example.com/posts/a");
    assert!(item.guid.is_permalink);
}

#[test]
fn dateless_entry_gets_the_sentinel_timestamp() {
    let a = entry("a", "A", None);
    let cfg = config();
    let ccfg = collection_cfg(None, Some("f.xml"));
    let feed = build_rss_feed(&vec![a], "f.xml", &cfg, &ccfg);
    let item = &feed.channels[0].items[0];
    assert_eq!(
        item.pub_date,
        DateTime { date: Date { year: 1970, month: 1, day: 1 }, hour: 0, minute: 0, second: 0 }
    );
}

#[test]
fn plan_renders_each_entry_through_each_template() {
    let a = entry("a", "A", Some(Date { year: 2024, month: 1, day: 1 }));
    let b = entry("b", "B", Some(Date { year: 2024, month: 6, day: 1 }));
    let cfg = config();
    let ccfg = CollectionConfig {
        title: String::new(),
        description: String::new(),
        templates: Some(vec!["post.html".to_string(), "card.html".to_string()]),
        connections: Some(vec!["list.html".to_string()]),
        rss: None,
    };
    let plan = resolve_collection(vec![a, b], None, "posts", &cfg, &ccfg);
    assert!(plan.rss.is_none());
    assert!(plan.binding.rss.is_none());
    // two templates x two entries, then one connection
    assert_eq!(plan.requests.len(), 5);
    assert_eq!(plan.requests[0].template, "post.html");
    assert_eq!(plan.requests[0].source, RenderSource::BindingEntry(0));
    assert_eq!(plan.requests[0].out_child_path, "posts/b.html");
    assert_eq!(plan.requests[1].out_child_path, "posts/a.html");
    assert_eq!(plan.requests[2].template, "card.html");
    assert_eq!(plan.requests[3].source, RenderSource::BindingEntry(1));
    let conn = &plan.requests[4];
    assert_eq!(conn.template, "list.html");
    assert_eq!(conn.source, RenderSource::Binding);
    assert_eq!(conn.out_child_path, "posts/list.html");
}

#[test]
fn index_entry_renders_through_its_declared_template() {
    let a = entry("a", "A", Some(Date { year: 2024, month: 1, day: 1 }));
    let mut ie = entry("index", "Home", None);
    ie.meta.template = Some("landing.html".to_string());
    let cfg = config();
    let ccfg = collection_cfg(None, None);
    let plan = resolve_collection(vec![a], Some(ie), "posts", &cfg, &ccfg);
    assert!(!plan.index_missing_template);
    assert_eq!(plan.requests.len(), 1);
    assert_eq!(plan.requests[0].template, "landing.html");
    assert_eq!(plan.requests[0].source, RenderSource::IndexEntry);
    assert_eq!(plan.requests[0].out_child_path, "posts/index.html");
}

#[test]
fn index_entry_without_template_is_flagged_not_fatal() {
    let ie = entry("index", "Home", None);
    let cfg = config();
    let ccfg = collection_cfg(None, None);
    let plan = resolve_collection(vec![], Some(ie), "posts", &cfg, &ccfg);
    assert!(plan.index_missing_template);
    assert_eq!(plan.requests.len(), 0);
    assert!(plan.index_entry.is_some());
}

#[test]
fn binding_carries_the_rss_route() {
    let cfg = config();
    let ccfg = collection_cfg(None, Some("posts/feed.xml"));
    let plan = resolve_collection(vec![], None, "posts", &cfg, &ccfg);
    let info = plan.binding.rss.as_ref().unwrap();
    assert_eq!(info.path, "posts/feed.xml");
    assert_eq!(info.route, "/posts/feed.xml");
}

#[test]
fn collection_entry_test_matches_extension_not_index() {
    assert!(is_collection_entry("a.md", "md"));
    assert!(is_collection_entry("B.MD", "md"));
    assert!(!is_collection_entry("index.md", "md"));
    assert!(!is_collection_entry("style.css", "md"));
    assert!(!is_collection_entry("noext", "md"));
}

#[test]
fn channel_parts_are_assembled_faithfully() {
    let items = vec![RssItem {
        title: "T".to_string(),
        link: "https://x/#t".to_string(),
        description: "<p>d</p>".to_string(),
        guid: RssGuid { value: "https://x/#t".to_string(), is_permalink: false },
        pub_date: DateTime { date: Date { year: 2024, month: 1, day: 1 }, hour: 12, minute: 0, second: 0 },
    }];
    let ch = RssChannel::new("t".to_string(), "https://x/f.xml".to_string(), "d".to_string(), items);
    assert_eq!(ch.atom_link.href, "https://x/f.xml");
    assert_eq!(ch.atom_link.rel, "self");
    assert_eq!(ch.atom_link.mime_type, "application/rss+xml");
    assert_eq!(ch.generator, "renatic");
    let feed = RssFeed::from_channel(ch);
    assert_eq!(feed.version, "2.0");
    assert_eq!(feed.atom_namespace, "http://www.w3.org/2005/Atom");
    assert_eq!(feed.channels.len(), 1);
    let link = RssAtomLink::from_link("x".to_string());
    assert_eq!(link.href, "x");
}

#[test]
fn channel_build_time_is_a_real_clock_reading() {
    let ch = RssChannel::new("t".to_string(), "l".to_string(), "d".to_string(), vec![]);
    let t = ch.last_build_date;
    assert!((1..=12).contains(&t.date.month));
    assert!((1..=31).contains(&t.date.day));
    assert!(t.hour <= 23 && t.minute <= 59 && t.second <= 59);
    assert!(t.date.year >= 2024);
}
