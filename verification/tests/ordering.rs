use renatic::collection::sort_entries;
use renatic::dates::Date;
use renatic::entry::Entry;
use renatic::index::{classify, index, IndexItem, IndexType};
use renatic::location::EntryLocation;
use renatic::meta::Meta;

fn item(path: &str, kind: IndexType) -> IndexItem {
    IndexItem { path: path.to_string(), index_type: kind }
}

#[test]
fn classify_follows_the_marker() {
    assert_eq!(classify(true, true), IndexType::Collection);
    assert_eq!(classify(true, false), IndexType::Directory);
    assert_eq!(classify(false, false), IndexType::File);
    assert_eq!(classify(false, true), IndexType::File);
}

#[test]
fn generation_order_puts_collections_first() {
    let nodes = vec![
        item("a.txt", IndexType::File),
        item("posts", IndexType::Collection),
        item("img", IndexType::Directory),
        item("b.txt", IndexType::File),
        item("notes", IndexType::Collection),
        item("css", IndexType::Directory),
    ];
    let ordered = index(nodes);
    let paths: Vec<&str> = ordered.iter().map(|n| n.path.as_str()).collect();
    assert_eq!(paths, vec!["posts", "notes", "img", "css", "a.txt", "b.txt"]);
}

#[test]
fn empty_index_stays_empty() {
    assert_eq!(index(vec![]).len(), 0);
}

fn entry(stem: &str, title: &str, date: Option<Date>) -> Entry {
    let source = format!("/src/posts/{stem}.md");
    let location = EntryLocation::from_paths(&source, "/src", "/out", "html").unwrap();
    Entry {
        meta: Meta {
            title: title.to_string(),
            date,
            category: None,
            tags: None,
            template: None,
            custom_fields: vec![],
        },
        location,
        content: format!("<p>{title}</p>"),
    }
}

#[test]
fn entries_sort_by_non_increasing_date() {
    let a = entry("a", "A", Some(Date { year: 2024, month: 1, day: 1 }));
    let b = entry("b", "B", Some(Date { year: 2024, month: 6, day: 1 }));
    let c = entry("c", "C", Some(Date { year: 2023, month: 12, day: 31 }));
    let sorted = sort_entries(vec![a, b, c]);
    let titles: Vec<&str> = sorted.iter().map(|e| e.meta.title.as_str()).collect();
    assert_eq!(titles, vec!["B", "A", "C"]);
}

#[test]
fn dateless_entries_sort_last_and_keep_their_order() {
    let a = entry("a", "A", None);
    let b = entry("b", "B", Some(Date { year: 2020, month: 5, day: 5 }));
    let c = entry("c", "C", None);
    let d = entry("d", "D", Some(Date { year: 2021, month: 5, day: 5 }));
    let sorted = sort_entries(vec![a, b, c, d]);
    let titles: Vec<&str> = sorted.iter().map(|e| e.meta.title.as_str()).collect();
    assert_eq!(titles, vec!["D", "B", "A", "C"]);
}

#[test]
fn equal_dates_keep_their_order() {
    let day = Some(Date { year: 2024, month: 3, day: 3 });
    let a = entry("a", "A", day);
    let b = entry("b", "B", day);
    let c = entry("c", "C", day);
    let sorted = sort_entries(vec![a, b, c]);
    let titles: Vec<&str> = sorted.iter().map(|e| e.meta.title.as_str()).collect();
    assert_eq!(titles, vec!["A", "B", "C"]);
}
