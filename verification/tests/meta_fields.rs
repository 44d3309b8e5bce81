use renatic::dates::{date_valid, format_date, parse_date, Date};
use renatic::error::{ErrorKind, MetaError};
use renatic::meta::Meta;
use renatic::values::FieldValue;

fn text(s: &str) -> FieldValue {
    FieldValue::Text(s.to_string())
}

#[test]
fn decodes_every_recognized_field() {
    let fields = vec![
        ("author".to_string(), text("me")),
        ("title".to_string(), text("Hello")),
        ("date".to_string(), text("2024-06-01")),
        ("category".to_string(), text("news")),
        (
            "tags".to_string(),
            FieldValue::TextList(vec!["a".to_string(), "b".to_string()]),
        ),
        ("template".to_string(), text("post.html")),
    ];
    let m = Meta::from_fields(fields).unwrap();
    assert_eq!(m.title, "Hello");
    assert_eq!(m.date, Some(Date { year: 2024, month: 6, day: 1 }));
    assert_eq!(m.category, Some("news".to_string()));
    assert_eq!(m.tags, Some(vec!["a".to_string(), "b".to_string()]));
    assert_eq!(m.template, Some("post.html".to_string()));
    assert_eq!(m.custom_fields, vec![("author".to_string(), text("me"))]);
}

#[test]
fn missing_title_is_a_missing_field_error() {
    let err = Meta::from_fields(vec![("date".to_string(), text("2024-01-01"))]).unwrap_err();
    assert_eq!(err.kind, ErrorKind::Metadata(MetaError::MissingField));
}

#[test]
fn non_string_title_is_a_missing_field_error() {
    let fields = vec![("title".to_string(), FieldValue::Bool(true))];
    let err = Meta::from_fields(fields).unwrap_err();
    assert_eq!(err.kind, ErrorKind::Metadata(MetaError::MissingField));
}

#[test]
fn malformed_date_is_a_date_format_error() {
    for bad in ["01-06-2024", "2024-6-1", "2024-13-01", "2023-02-29", "yesterday"] {
        let fields = vec![("title".to_string(), text("T")), ("date".to_string(), text(bad))];
        let err = Meta::from_fields(fields).unwrap_err();
        assert_eq!(err.kind, ErrorKind::Metadata(MetaError::DateFormat));
    }
}

#[test]
fn leap_day_parses() {
    let fields = vec![
        ("title".to_string(), text("T")),
        ("date".to_string(), text("2024-02-29")),
    ];
    let m = Meta::from_fields(fields).unwrap();
    assert_eq!(m.date, Some(Date { year: 2024, month: 2, day: 29 }));
}

#[test]
fn malformed_tags_are_a_type_error() {
    let fields = vec![("title".to_string(), text("T")), ("tags".to_string(), text("solo"))];
    let err = Meta::from_fields(fields).unwrap_err();
    assert_eq!(err.kind, ErrorKind::Metadata(MetaError::Type));
}

#[test]
fn malformed_category_is_a_type_error() {
    let fields = vec![
        ("title".to_string(), text("T")),
        ("category".to_string(), FieldValue::TextList(vec![])),
    ];
    let err = Meta::from_fields(fields).unwrap_err();
    assert_eq!(err.kind, ErrorKind::Metadata(MetaError::Type));
}

#[test]
fn first_binding_of_a_key_wins() {
    let fields = vec![
        ("title".to_string(), text("First")),
        ("title".to_string(), text("Second")),
    ];
    let m = Meta::from_fields(fields).unwrap();
    assert_eq!(m.title, "First");
}

#[test]
fn decode_then_encode_keeps_all_values() {
    let fields = vec![
        ("author".to_string(), text("me")),
        ("weight".to_string(), FieldValue::Raw("42".to_string())),
        ("title".to_string(), text("Hello")),
        ("date".to_string(), text("2024-06-01")),
        (
            "tags".to_string(),
            FieldValue::TextList(vec!["x".to_string()]),
        ),
    ];
    let m = Meta::from_fields(fields).unwrap();
    let encoded = m.to_fields();
    // custom fields come first, verbatim
    assert_eq!(encoded[0], ("author".to_string(), text("me")));
    assert_eq!(encoded[1], ("weight".to_string(), FieldValue::Raw("42".to_string())));
    let m2 = Meta::from_fields(encoded).unwrap();
    assert_eq!(m2.title, m.title);
    assert_eq!(m2.date, m.date);
    assert_eq!(m2.category, m.category);
    assert_eq!(m2.tags, m.tags);
    assert_eq!(m2.template, m.template);
    assert_eq!(m2.custom_fields, m.custom_fields);
}

#[test]
fn date_formats_back_to_the_same_text() {
    let d = parse_date("2024-06-01").unwrap();
    assert_eq!(d, Date { year: 2024, month: 6, day: 1 });
    assert_eq!(format_date(&d), "2024-06-01");
    let early = Date { year: 7, month: 3, day: 4 };
    assert_eq!(format_date(&early), "0007-03-04");
    assert_eq!(parse_date("0007-03-04"), Some(early));
}

#[test]
fn parse_date_rejects_wrong_shapes() {
    assert_eq!(parse_date(""), None);
    assert_eq!(parse_date("2024-06-01x"), None);
    assert_eq!(parse_date("2024/06/01"), None);
    assert_eq!(parse_date("2024-00-10"), None);
    assert_eq!(parse_date("2024-04-31"), None);
    assert_eq!(parse_date("1900-02-29"), None);
    assert_eq!(parse_date("2000-02-29"), Some(Date { year: 2000, month: 2, day: 29 }));
}

#[test]
fn decoded_metadata_is_well_formed() {
    let fields = vec![
        ("title".to_string(), text("T")),
        ("date".to_string(), text("2024-06-01")),
        ("note".to_string(), text("kept")),
    ];
    let m = Meta::from_fields(fields).unwrap();
    assert!(m.well_formed());
    let shadowed = Meta {
        title: "T".to_string(),
        date: None,
        category: None,
        tags: None,
        template: None,
        custom_fields: vec![("title".to_string(), text("shadow"))],
    };
    assert!(!shadowed.well_formed());
}

#[test]
fn date_validity_matches_the_calendar() {
    assert!(date_valid(&Date { year: 2024, month: 2, day: 29 }));
    assert!(!date_valid(&Date { year: 2023, month: 2, day: 29 }));
    assert!(!date_valid(&Date { year: 2023, month: 0, day: 1 }));
    assert!(!date_valid(&Date { year: 10000, month: 1, day: 1 }));
}
