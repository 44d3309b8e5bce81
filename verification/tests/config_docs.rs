use renatic::config::{CollectionConfig, Config};
use renatic::error::ErrorKind;
use renatic::values::FieldValue;

fn text(s: &str) -> FieldValue {
    FieldValue::Text(s.to_string())
}

#[test]
fn minimal_configuration_takes_the_defaults() {
    let fields = vec![("base_url".to_string(), text("https://site"))];
    let c = Config::from_fields(fields).unwrap();
    assert_eq!(c.base_url, "https://site");
    assert!(c.ignore_hidden);
    assert_eq!(c.ignore_paths, vec!["renatic.yaml".to_string()]);
    assert_eq!(c.template_ext, "html");
    assert_eq!(c.target_ext, "html");
    assert_eq!(c.content_ext, "md");
}

#[test]
fn explicit_settings_override_the_defaults() {
    let fields = vec![
        ("base_url".to_string(), text("https://site")),
        ("ignore_hidden".to_string(), FieldValue::Bool(false)),
        (
            "ignore".to_string(),
            FieldValue::TextList(vec!["drafts/".to_string(), "tmp".to_string()]),
        ),
        ("template_ext".to_string(), text("tpl")),
        ("target_ext".to_string(), text("htm")),
        ("content_ext".to_string(), text("markdown")),
    ];
    let c = Config::from_fields(fields).unwrap();
    assert!(!c.ignore_hidden);
    assert_eq!(c.ignore_paths, vec!["drafts/".to_string(), "tmp".to_string()]);
    assert_eq!(c.template_ext, "tpl");
    assert_eq!(c.target_ext, "htm");
    assert_eq!(c.content_ext, "markdown");
}

#[test]
fn missing_base_url_is_a_configuration_error() {
    let err = Config::from_fields(vec![]).unwrap_err();
    assert_eq!(err.kind, ErrorKind::Config);
}

#[test]
fn wrongly_shaped_field_is_a_configuration_error() {
    let fields = vec![
        ("base_url".to_string(), text("https://site")),
        ("ignore_hidden".to_string(), text("yes")),
    ];
    let err = Config::from_fields(fields).unwrap_err();
    assert_eq!(err.kind, ErrorKind::Config);
}

#[test]
fn built_in_defaults_match_the_documented_ones() {
    let c = Config::default();
    assert_eq!(c.base_url, "https://www.example.com");
    assert!(c.ignore_hidden);
    assert_eq!(c.ignore_paths, vec!["renatic.yaml".to_string()]);
    assert_eq!(c.template_ext, "html");
    assert_eq!(c.target_ext, "html");
    assert_eq!(c.content_ext, "md");
}

#[test]
fn collection_configuration_defaults_to_nothing() {
    let c = CollectionConfig::from_fields(vec![]).unwrap();
    assert_eq!(c.title, "");
    assert_eq!(c.description, "");
    assert!(c.templates.is_none());
    assert!(c.connections.is_none());
    assert!(c.rss.is_none());
}

#[test]
fn collection_configuration_reads_every_field() {
    let fields = vec![
        ("title".to_string(), text("Posts")),
        ("description".to_string(), text("All posts")),
        (
            "templates".to_string(),
            FieldValue::TextList(vec!["post.html".to_string()]),
        ),
        (
            "connections".to_string(),
            FieldValue::TextList(vec!["list.html".to_string()]),
        ),
        ("rss".to_string(), text("posts/feed.xml")),
    ];
    let c = CollectionConfig::from_fields(fields).unwrap();
    assert_eq!(c.title, "Posts");
    assert_eq!(c.description, "All posts");
    assert_eq!(c.templates, Some(vec!["post.html".to_string()]));
    assert_eq!(c.connections, Some(vec!["list.html".to_string()]));
    assert_eq!(c.rss, Some("posts/feed.xml".to_string()));
}

#[test]
fn collection_templates_must_be_a_list() {
    let fields = vec![("templates".to_string(), text("post.html"))];
    let err = CollectionConfig::from_fields(fields).unwrap_err();
    assert_eq!(err.kind, ErrorKind::Config);
}
