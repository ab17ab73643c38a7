use bamboolog::http::{response_status, ApiResponse};
use bamboolog::paths::{is_clean_relative, is_single_segment, is_within, resolve_below_root};
use bamboolog::site_settings::{asset_url, SiteSettings, SiteSettingsService};
use bamboolog::theme_definition::{LayoutAlias, ThemeDefinition};

#[test]
fn clean_relative_paths() {
    assert!(is_clean_relative("css/site.css"));
    assert!(is_clean_relative("a..b/c"));
    assert!(is_clean_relative(".hidden"));
    assert!(!is_clean_relative(""));
    assert!(!is_clean_relative("../../etc/passwd"));
    assert!(!is_clean_relative("a/../b"));
    assert!(!is_clean_relative("a/.."));
    assert!(!is_clean_relative("./a"));
    assert!(!is_clean_relative("a/./b"));
    assert!(!is_clean_relative("/etc/passwd"));
    assert!(!is_clean_relative("a//b"));
    assert!(!is_clean_relative("a/"));
    assert!(!is_clean_relative("a\\..\\b"));
    assert!(!is_clean_relative("a\0b"));
}

#[test]
fn single_segment_names() {
    assert!(is_single_segment("default"));
    assert!(!is_single_segment("a/b"));
    assert!(!is_single_segment(".."));
    assert!(!is_single_segment(""));
}

#[test]
fn containment_of_canonical_paths() {
    assert!(is_within("/srv/assets", "/srv/assets"));
    assert!(is_within("/srv/assets", "/srv/assets/a.css"));
    assert!(!is_within("/srv/assets", "/srv/assets2/a.css"));
    assert!(!is_within("/srv/assets", "/srv"));
    assert!(!is_within("/srv/assets", "/etc/passwd"));
    assert!(is_within("/", "/etc"));
}

#[test]
fn asset_url_joins_with_one_slash() {
    assert_eq!(asset_url("https://x.org", "static/a.css"), "https://x.org/static/a.css");
    assert_eq!(asset_url("https://x.org/", "/static/a.css"), "https://x.org/static/a.css");
    assert_eq!(asset_url("", "a.css"), "/a.css");
}

#[test]
fn site_settings_default_and_update() {
    let mut svc = SiteSettingsService::new(SiteSettings::default());
    assert_eq!(svc.get().site_name, "");
    svc.update(SiteSettings { site_name: "Bamboo".to_string(), base_url: "https://b.org".to_string() });
    let s = svc.get();
    assert_eq!(s.site_name, "Bamboo");
    assert_eq!(s.base_url, "https://b.org");
}

#[test]
fn layout_aliases_map_names() {
    let mut d = ThemeDefinition::default();
    d.layout_mapping.push(LayoutAlias { name: "home.html".to_string(), file: "index.html".to_string() });
    d.layout_mapping.push(LayoutAlias { name: "home.html".to_string(), file: "other.html".to_string() });
    assert_eq!(d.map_layout_file("home.html"), "index.html");
    assert_eq!(d.map_layout_file("post.html"), "post.html");
}

#[test]
fn api_response_constructors() {
    let r = ApiResponse::ok(5u8);
    assert_eq!(r.code, 200);
    assert!(r.message.is_none());
    assert_eq!(r.data, Some(5));
    let r = ApiResponse::new_any(1234, "m".to_string(), "d");
    assert_eq!(r.code, 1234);
    assert_eq!(r.message.as_deref(), Some("m"));
    let r = ApiResponse::unauthorized();
    assert_eq!(r.code, 401);
    assert_eq!(r.message.as_deref(), Some("unauthorized"));
    let r = ApiResponse::internal_server_error();
    assert_eq!(r.code, 500);
    assert_eq!(r.message.as_deref(), Some("internal server error"));
    let r = ApiResponse::code(404);
    assert_eq!(r.message.as_deref(), Some("404"));
    let r = ApiResponse::code_and_message(400, "bad");
    assert_eq!((r.code, r.message.as_deref()), (400, Some("bad")));
}

#[test]
fn response_status_range() {
    assert_eq!(response_status(200), Some(200));
    assert_eq!(response_status(100), Some(100));
    assert_eq!(response_status(999), Some(999));
    assert_eq!(response_status(99), None);
    assert_eq!(response_status(1000), None);
    assert_eq!(response_status(-1), None);
}

#[test]
fn resolve_below_root_normalizes() {
    assert_eq!(resolve_below_root("a/b/../c").as_deref(), Some("a/c"));
    assert_eq!(resolve_below_root("a/./b").as_deref(), Some("a/b"));
    assert_eq!(resolve_below_root("a..b/c").as_deref(), Some("a..b/c"));
    assert_eq!(resolve_below_root("..."), Some("...".to_string()));
    assert!(resolve_below_root("../../etc/passwd").is_none());
    assert!(resolve_below_root("a/../..").is_none());
    assert!(resolve_below_root("/etc/passwd").is_none());
    assert!(resolve_below_root("a/..").is_none());
    assert!(resolve_below_root(".").is_none());
    assert!(resolve_below_root("a\0b").is_none());
}
