use renatic::error::ErrorKind;
use renatic::location::{EntryLocation, Location};
use renatic::paths::{path_extension, path_file_name, path_starts_with_exec, path_strip_prefix, path_with_extension};

#[test]
fn location_resolves_route_and_short_route() {
    let loc = Location::new("/src/posts/a.md", "/src", "/out", "html", None).unwrap();
    assert_eq!(loc.source_path, "/src/posts/a.md");
    assert_eq!(loc.source_child_path, "posts/a.md");
    assert_eq!(loc.source_file_name, "a.md");
    assert_eq!(loc.target_file_stem, "a");
    assert_eq!(loc.target_child_path, "posts/a.html");
    assert_eq!(loc.target_path, "/out/posts/a.html");
    assert_eq!(loc.route, "/posts/a.html");
    assert_eq!(loc.short_route, "/posts/a");
    assert!(loc.route.starts_with('/'));
}

#[test]
fn location_honours_custom_stem() {
    let loc = Location::new("/src/posts/a.md", "/src", "/out", "html", Some("index")).unwrap();
    assert_eq!(loc.target_file_stem, "index");
    assert_eq!(loc.target_child_path, "posts/index.html");
    assert_eq!(loc.route, "/posts/index.html");
    assert_eq!(loc.short_route, "/posts/index");
}

#[test]
fn location_rejects_path_outside_root() {
    let err = Location::new("/elsewhere/a.md", "/src", "/out", "html", None).unwrap_err();
    assert_eq!(err.kind, ErrorKind::Path);
}

#[test]
fn location_rejects_the_root_itself() {
    let err = Location::new("/src", "/src", "/out", "html", None).unwrap_err();
    assert_eq!(err.kind, ErrorKind::Path);
}

#[test]
fn entry_location_rewrites_extension_only() {
    let loc = EntryLocation::from_paths("/src/posts/b.md", "/src", "/out", "html").unwrap();
    assert_eq!(loc.source_child_path, "posts/b.md");
    assert_eq!(loc.source_file_name, "b.md");
    assert_eq!(loc.file_stem, "b");
    assert_eq!(loc.target_child_path, "posts/b.html");
    assert_eq!(loc.target_path, "/out/posts/b.html");
    assert_eq!(loc.route, "/posts/b.html");
    assert_eq!(loc.short_route, "/posts/b");
}

#[test]
fn entry_location_rejects_path_outside_root() {
    let err = EntryLocation::from_paths("/other/b.md", "/src", "/out", "html").unwrap_err();
    assert_eq!(err.kind, ErrorKind::Path);
}

#[test]
fn leading_dot_name_has_no_extension() {
    let loc = EntryLocation::from_paths("/src/.config", "/src", "/out", "html").unwrap();
    assert_eq!(loc.file_stem, ".config");
    assert_eq!(loc.target_child_path, ".config.html");
}

#[test]
fn deep_paths_keep_their_place() {
    let loc = EntryLocation::from_paths("/s/a/b/c.md", "/s", "/o", "htm").unwrap();
    assert_eq!(loc.target_child_path, "a/b/c.htm");
    assert_eq!(loc.route, "/a/b/c.htm");
    assert_eq!(loc.short_route, "/a/b/c");
}

#[test]
fn strip_prefix_is_component_wise() {
    assert_eq!(path_strip_prefix("/src/a/b", "/src"), Some("a/b".to_string()));
    assert_eq!(path_strip_prefix("/src", "/src"), Some(String::new()));
    assert_eq!(path_strip_prefix("/srcx/a", "/src"), None);
    assert_eq!(path_strip_prefix("a/b", ""), Some("a/b".to_string()));
    assert!(path_starts_with_exec("drafts/a", "drafts"));
    assert!(!path_starts_with_exec("draftsy", "drafts"));
}

#[test]
fn extension_helpers_follow_the_final_component() {
    assert_eq!(path_extension("a/b/c.md"), "md");
    assert_eq!(path_extension("a.b/c"), "");
    assert_eq!(path_extension(".hidden"), "");
    assert_eq!(path_file_name("a/b/c.md"), "c.md");
    assert_eq!(path_file_name("plain"), "plain");
    assert_eq!(path_with_extension("a/b/c.md", "html"), "a/b/c.html");
    assert_eq!(path_with_extension("a/b/c.md", ""), "a/b/c");
    assert_eq!(path_with_extension("a.b/c", "x"), "a.b/c.x");
}
