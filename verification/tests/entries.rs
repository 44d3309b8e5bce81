use renatic::dates::Date;
use renatic::entry::{CollectionBinding, Entry};
use renatic::error::{ErrorKind, MetaError};
use renatic::location::EntryLocation;
use renatic::values::FieldValue;

fn location(stem: &str) -> EntryLocation {
    let source = format!("/src/posts/{stem}.md");
    EntryLocation::from_paths(&source, "/src", "/out", "html").unwrap()
}

#[test]
fn entry_assembles_from_its_parts() {
    let header = vec![
        ("title".to_string(), FieldValue::Text("A".to_string())),
        ("date".to_string(), FieldValue::Text("2024-01-01".to_string())),
    ];
    let e = Entry::from_parts(header, "<p>body</p>".to_string(), location("a")).unwrap();
    assert_eq!(e.meta.title, "A");
    assert_eq!(e.meta.date, Some(Date { year: 2024, month: 1, day: 1 }));
    assert_eq!(e.content, "<p>body</p>");
    assert_eq!(e.location.route, "/posts/a.html");
}

#[test]
fn entry_from_bad_header_names_the_source() {
    let header = vec![("date".to_string(), FieldValue::Text("2024-01-01".to_string()))];
    let err = Entry::from_parts(header, String::new(), location("a")).unwrap_err();
    assert_eq!(err.kind, ErrorKind::Metadata(MetaError::MissingField));
    assert_eq!(err.stage, "/src/posts/a.md");
    assert!(err.cause.is_some());
}

#[test]
fn binding_without_rss_setting_has_none() {
    let cfg = renatic::config::CollectionConfig {
        title: String::new(),
        description: String::new(),
        templates: None,
        connections: None,
        rss: None,
    };
    let b = CollectionBinding::new(vec![], &cfg);
    assert!(b.rss.is_none());
    assert_eq!(b.entries.len(), 0);
}

#[test]
fn error_wrapping_keeps_the_chain() {
    let inner = renatic::error::Error::new(ErrorKind::Io, "read".to_string());
    let outer = inner.wrap(ErrorKind::Io, "loading posts/a.md".to_string());
    assert_eq!(outer.kind, ErrorKind::Io);
    assert_eq!(outer.stage, "loading posts/a.md");
    let cause = outer.cause.as_ref().unwrap();
    assert_eq!(cause.stage, "read");
    assert!(cause.cause.is_none());
}
