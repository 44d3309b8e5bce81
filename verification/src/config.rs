//! The main and per-collection configuration models, decoded from the
//! field lists the YAML collaborator hands over.

use vstd::prelude::*;
use crate::error::{Error, ErrorKind};
use crate::values::{clone_strings, fields_view, lookup, lookup_field, FieldValue, FieldValueView,
    FieldsView};

verus! {

/// The main configuration, read from the source root.
#[derive(Debug)]
pub struct Config {
    pub base_url: String,
    pub ignore_hidden: bool,
    pub ignore_paths: Vec<String>,
    pub template_ext: String,
    pub target_ext: String,
    pub content_ext: String,
}

/// The mathematical shape of a configuration.
#[verifier::ext_equal]
pub struct ConfigView {
    pub base_url: Seq<char>,
    pub ignore_hidden: bool,
    pub ignore_paths: Seq<Seq<char>>,
    pub template_ext: Seq<char>,
    pub target_ext: Seq<char>,
    pub content_ext: Seq<char>,
}

impl View for Config {
    type V = ConfigView;

    open spec fn view(&self) -> ConfigView {
        ConfigView {
            base_url: self.base_url@,
            ignore_hidden: self.ignore_hidden,
            ignore_paths: self.ignore_paths.deep_view(),
            template_ext: self.template_ext@,
            target_ext: self.target_ext@,
            content_ext: self.content_ext@,
        }
    }
}

/// What a configuration document decodes to: `base_url` is required, the
/// hidden-file policy defaults to on, the ignore list defaults to the
/// configuration file itself, and the extensions default to `html`,
/// `html` and `md`.
pub open spec fn decode_config(fields: FieldsView) -> Option<ConfigView> {
    match lookup(fields, "base_url"@) {
        Some(FieldValueView::Text(base_url)) => match lookup(fields, "ignore_hidden"@) {
            Some(FieldValueView::Bool(ih)) => decode_config_rest(fields, base_url, ih),
            None => decode_config_rest(fields, base_url, true),
            Some(_) => None,
        },
        _ => None,
    }
}

pub open spec fn decode_config_rest(fields: FieldsView, base_url: Seq<char>, ih: bool) -> Option<
    ConfigView,
> {
    match lookup(fields, "ignore"@) {
        Some(FieldValueView::TextList(ignore)) => decode_config_exts(fields, base_url, ih, ignore),
        None => decode_config_exts(fields, base_url, ih, seq!["renatic.yaml"@]),
        Some(_) => None,
    }
}

pub open spec fn decode_config_exts(
    fields: FieldsView,
    base_url: Seq<char>,
    ih: bool,
    ignore: Seq<Seq<char>>,
) -> Option<ConfigView> {
    match decode_text_default(fields, "template_ext"@, "html"@) {
        None => None,
        Some(template_ext) => match decode_text_default(fields, "target_ext"@, "html"@) {
            None => None,
            Some(target_ext) => match decode_text_default(fields, "content_ext"@, "md"@) {
                None => None,
                Some(content_ext) => Some(
                    ConfigView {
                        base_url,
                        ignore_hidden: ih,
                        ignore_paths: ignore,
                        template_ext,
                        target_ext,
                        content_ext,
                    },
                ),
            },
        },
    }
}

/// An optional string key with a default.
pub open spec fn decode_text_default(fields: FieldsView, key: Seq<char>, dflt: Seq<char>) -> Option<
    Seq<char>,
> {
    match lookup(fields, key) {
        None => Some(dflt),
        Some(FieldValueView::Text(s)) => Some(s),
        Some(_) => None,
    }
}

/// The built-in defaults, used where no configuration file speaks.
pub open spec fn default_config() -> ConfigView {
    ConfigView {
        base_url: "https://www.example.com"@,
        ignore_hidden: true,
        ignore_paths: seq!["renatic.yaml"@],
        template_ext: "html"@,
        target_ext: "html"@,
        content_ext: "md"@,
    }
}

impl Default for Config {
    /// The built-in defaults.
    fn default() -> (r: Config)
        ensures
            r@ == default_config(),
    {
        let mut ignore_paths: Vec<String> = Vec::new();
        ignore_paths.push("renatic.yaml".to_owned());
        let c = Config {
            base_url: "https://www.example.com".to_owned(),
            ignore_hidden: true,
            ignore_paths,
            template_ext: "html".to_owned(),
            target_ext: "html".to_owned(),
            content_ext: "md".to_owned(),
        };
        proof {
            assert(c@.ignore_paths =~~= default_config().ignore_paths);
            assert(c@ =~~= default_config());
        }
        c
    }
}

impl Config {
    /// Decodes a configuration document, exactly as the decode
    /// specification says; a missing `base_url` or a wrongly shaped field
    /// is a configuration error.
    pub fn from_fields(fields: Vec<(String, FieldValue)>) -> (r: Result<Config, Error>)
        ensures
            r is Ok <==> decode_config(fields_view(fields@)) is Some,
            r matches Ok(c) ==> decode_config(fields_view(fields@)) == Some(c@),
            r matches Err(e) ==> e.kind == ErrorKind::Config,
    {
        let base_url: String = match lookup_field(&fields, "base_url") {
            Some(FieldValue::Text(s)) => s.clone(),
            _ => {
                return Err(Error::new(ErrorKind::Config, "base_url".to_owned()));
            },
        };
        let ignore_hidden: bool = match lookup_field(&fields, "ignore_hidden") {
            None => true,
            Some(FieldValue::Bool(b)) => *b,
            Some(_) => {
                return Err(Error::new(ErrorKind::Config, "ignore_hidden".to_owned()));
            },
        };
        let ignore_paths: Vec<String> = match lookup_field(&fields, "ignore") {
            None => {
                let mut v: Vec<String> = Vec::new();
                v.push("renatic.yaml".to_owned());
                proof {
                    assert(v.deep_view() =~~= seq!["renatic.yaml"@]);
                }
                v
            },
            Some(FieldValue::TextList(l)) => clone_strings(l),
            Some(_) => {
                return Err(Error::new(ErrorKind::Config, "ignore".to_owned()));
            },
        };
        let template_ext: String = match lookup_field(&fields, "template_ext") {
            None => "html".to_owned(),
            Some(FieldValue::Text(s)) => s.clone(),
            Some(_) => {
                return Err(Error::new(ErrorKind::Config, "template_ext".to_owned()));
            },
        };
        let target_ext: String = match lookup_field(&fields, "target_ext") {
            None => "html".to_owned(),
            Some(FieldValue::Text(s)) => s.clone(),
            Some(_) => {
                return Err(Error::new(ErrorKind::Config, "target_ext".to_owned()));
            },
        };
        let content_ext: String = match lookup_field(&fields, "content_ext") {
            None => "md".to_owned(),
            Some(FieldValue::Text(s)) => s.clone(),
            Some(_) => {
                return Err(Error::new(ErrorKind::Config, "content_ext".to_owned()));
            },
        };
        let c = Config {
            base_url,
            ignore_hidden,
            ignore_paths,
            template_ext,
            target_ext,
            content_ext,
        };
        proof {
            assert(decode_config(fields_view(fields@)) == Some(c@));
        }
        Ok(c)
    }
}

/// The per-collection configuration, read from the collection directory.
#[derive(Debug)]
pub struct CollectionConfig {
    pub title: String,
    pub description: String,
    /// Templates rendered once per entry.
    pub templates: Option<Vec<String>>,
    /// Connection templates rendered once with the whole binding.
    pub connections: Option<Vec<String>>,
    /// Where the collection's RSS document goes, if anywhere.
    pub rss: Option<String>,
}

/// The mathematical shape of a collection configuration.
#[verifier::ext_equal]
pub struct CollectionConfigView {
    pub title: Seq<char>,
    pub description: Seq<char>,
    pub templates: Option<Seq<Seq<char>>>,
    pub connections: Option<Seq<Seq<char>>>,
    pub rss: Option<Seq<char>>,
}

impl View for CollectionConfig {
    type V = CollectionConfigView;

    open spec fn view(&self) -> CollectionConfigView {
        CollectionConfigView {
            title: self.title@,
            description: self.description@,
            templates: match self.templates {
                Some(ref t) => Some(t.deep_view()),
                None => None,
            },
            connections: match self.connections {
                Some(ref c) => Some(c.deep_view()),
                None => None,
            },
            rss: match self.rss {
                Some(ref r) => Some(r@),
                None => None,
            },
        }
    }
}

/// An optional string-list key.
pub open spec fn decode_list_opt(fields: FieldsView, key: Seq<char>) -> Option<
    Option<Seq<Seq<char>>>,
> {
    match lookup(fields, key) {
        None => Some(None),
        Some(FieldValueView::TextList(l)) => Some(Some(l)),
        Some(_) => None,
    }
}

/// What a collection configuration decodes to: title and description
/// default to empty, the template, connection and RSS settings stay
/// absent unless given.
pub open spec fn decode_collection_config(fields: FieldsView) -> Option<CollectionConfigView> {
    match decode_text_default(fields, "title"@, Seq::empty()) {
        None => None,
        Some(title) => match decode_text_default(fields, "description"@, Seq::empty()) {
            None => None,
            Some(description) => match decode_list_opt(fields, "templates"@) {
                None => None,
                Some(templates) => match decode_list_opt(fields, "connections"@) {
                    None => None,
                    Some(connections) => match lookup(fields, "rss"@) {
                        None => Some(
                            CollectionConfigView {
                                title,
                                description,
                                templates,
                                connections,
                                rss: None,
                            },
                        ),
                        Some(FieldValueView::Text(r)) => Some(
                            CollectionConfigView {
                                title,
                                description,
                                templates,
                                connections,
                                rss: Some(r),
                            },
                        ),
                        Some(_) => None,
                    },
                },
            },
        },
    }
}

impl CollectionConfig {
    /// Decodes a collection configuration document, exactly as the
    /// decode specification says; a wrongly shaped field is a
    /// configuration error.
    pub fn from_fields(fields: Vec<(String, FieldValue)>) -> (r: Result<CollectionConfig, Error>)
        ensures
            r is Ok <==> decode_collection_config(fields_view(fields@)) is Some,
            r matches Ok(c) ==> decode_collection_config(fields_view(fields@)) == Some(c@),
            r matches Err(e) ==> e.kind == ErrorKind::Config,
    {
        let title: String = match lookup_field(&fields, "title") {
            None => String::new(),
            Some(FieldValue::Text(s)) => s.clone(),
            Some(_) => {
                return Err(Error::new(ErrorKind::Config, "title".to_owned()));
            },
        };
        let description: String = match lookup_field(&fields, "description") {
            None => String::new(),
            Some(FieldValue::Text(s)) => s.clone(),
            Some(_) => {
                return Err(Error::new(ErrorKind::Config, "description".to_owned()));
            },
        };
        let templates: Option<Vec<String>> = match lookup_field(&fields, "templates") {
            None => None,
            Some(FieldValue::TextList(l)) => Some(clone_strings(l)),
            Some(_) => {
                return Err(Error::new(ErrorKind::Config, "templates".to_owned()));
            },
        };
        let connections: Option<Vec<String>> = match lookup_field(&fields, "connections") {
            None => None,
            Some(FieldValue::TextList(l)) => Some(clone_strings(l)),
            Some(_) => {
                return Err(Error::new(ErrorKind::Config, "connections".to_owned()));
            },
        };
        let rss: Option<String> = match lookup_field(&fields, "rss") {
            None => None,
            Some(FieldValue::Text(s)) => Some(s.clone()),
            Some(_) => {
                return Err(Error::new(ErrorKind::Config, "rss".to_owned()));
            },
        };
        let c = CollectionConfig { title, description, templates, connections, rss };
        proof {
            assert(decode_collection_config(fields_view(fields@)) == Some(c@));
        }
        Ok(c)
    }
}

} // verus!
