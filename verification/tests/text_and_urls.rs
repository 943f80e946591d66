use site_engine::entities::EngineError;
use site_engine::entities::Filter;
use site_engine::sites::anima_regia_config;
use site_engine::sites::reaper_scans_config;
use site_engine::text::encode_query_value;
use site_engine::text::join_strings;
use site_engine::text::str_eq_ci;
use site_engine::text::strip_suffix_repeat;
use site_engine::text::strip_through_separator;
use site_engine::text::trim;
use site_engine::text::usize_to_dec;
use site_engine::urls::catalog_url;
use site_engine::urls::chapter_id_from_href;
use site_engine::urls::handle_url;
use site_engine::urls::id_from_href;
use site_engine::urls::item_url;
use site_engine::urls::listing_url;

#[test]
fn chapter_title_with_separator_keeps_remainder() {
    let out = strip_through_separator("Chapter 12 - Real Title", " - ");
    assert_eq!(out, "Real Title");
}

#[test]
fn chapter_title_without_separator_is_unchanged() {
    let out = strip_through_separator("NoSeparatorHere", " - ");
    assert_eq!(out, "NoSeparatorHere");
}

#[test]
fn locale_suffix_strip_removes_trailing_marker() {
    let out = strip_suffix_repeat("Medo Mortal (pt-br)", " (pt-br)");
    assert_eq!(out, "Medo Mortal");
}

#[test]
fn locale_suffix_strip_is_idempotent_on_stacked_markers() {
    let once = strip_suffix_repeat("Título (pt-br) (pt-br)", " (pt-br)");
    let twice = strip_suffix_repeat(once.as_str(), " (pt-br)");
    assert_eq!(once, "Título");
    assert_eq!(twice, once);
}

#[test]
fn locale_suffix_strip_with_empty_suffix_changes_nothing() {
    let out = strip_suffix_repeat("As Is", "");
    assert_eq!(out, "As Is");
}

#[test]
fn chapter_title_keeps_everything_after_the_first_separator() {
    let out = strip_through_separator("Vol. 1 - Chapter 2 - Start", " - ");
    assert_eq!(out, "Chapter 2 - Start");
}

#[test]
fn title_that_is_only_the_suffix_strips_to_empty() {
    assert_eq!(strip_suffix_repeat(" (pt-br)", " (pt-br)"), "");
    assert_eq!(strip_suffix_repeat(" (pt-br) (pt-br)", " (pt-br)"), "");
}

#[test]
fn handle_url_rejects_a_bare_item_root() {
    let cfg = reaper_scans_config();
    let r = handle_url(&cfg, "https://reaperscansar.com/series///");
    assert!(matches!(r, Err(EngineError::UnresolvedUrl)));
}

#[test]
fn case_insensitive_equality_folds_ascii_only() {
    assert!(str_eq_ci("ABC", "abc"));
    assert!(str_eq_ci("Autor(Es)", "autor(es)"));
    assert!(!str_eq_ci("ab", "abc"));
    assert!(!str_eq_ci("abc", "abd"));
}

#[test]
fn trim_removes_surrounding_whitespace() {
    assert_eq!(trim("  x  "), "x");
    assert_eq!(trim("\t a b \n"), "a b");
    assert_eq!(trim("   "), "");
}

#[test]
fn join_strings_handles_empty_single_and_many() {
    let none: Vec<String> = Vec::new();
    assert_eq!(join_strings(&none, ", "), "");
    let one = vec![String::from("a")];
    assert_eq!(join_strings(&one, ", "), "a");
    let two = vec![String::from("a"), String::from("b")];
    assert_eq!(join_strings(&two, ", "), "a, b");
}

#[test]
fn decimal_rendering_is_exact() {
    assert_eq!(usize_to_dec(0), "0");
    assert_eq!(usize_to_dec(42), "42");
    assert_eq!(usize_to_dec(120034), "120034");
}

#[test]
fn query_value_encoding_escapes_separators() {
    assert_eq!(encode_query_value("a b&c=d#e"), "a+b%26c%3Dd%23e");
    assert_eq!(encode_query_value("ação"), "ação");
}

#[test]
fn item_url_is_base_item_path_and_id() {
    let cfg = anima_regia_config();
    assert_eq!(item_url(&cfg, "medo-mortal"), "http://animaregia.net/manga/medo-mortal");
}

#[test]
fn catalog_url_uses_ajax_endpoint_when_configured() {
    let cfg = reaper_scans_config();
    let filters: Vec<Filter> = Vec::new();
    let url = catalog_url(&cfg, &filters, 3);
    assert_eq!(url, "https://reaperscansar.com/wp-admin/admin-ajax.php?page=3");
}

#[test]
fn catalog_url_carries_search_and_tag_filters() {
    let cfg = anima_regia_config();
    let filters = vec![
        Filter::Search(String::from("solo leveling")),
        Filter::Tag(String::from("ação")),
    ];
    let url = catalog_url(&cfg, &filters, 1);
    assert_eq!(url, "http://animaregia.net/filterList?page=1&s=solo+leveling&tag=ação");
}

#[test]
fn listing_url_names_the_listing() {
    let cfg = anima_regia_config();
    assert_eq!(
        listing_url(&cfg, "latest", 2),
        "http://animaregia.net/filterList?listing=latest&page=2"
    );
}

#[test]
fn id_from_href_handles_absolute_relative_and_trailing_slash() {
    let cfg = reaper_scans_config();
    assert_eq!(id_from_href(&cfg, "https://reaperscansar.com/series/solo-x/"), "solo-x");
    assert_eq!(id_from_href(&cfg, "/series/solo-x"), "solo-x");
    assert_eq!(id_from_href(&cfg, "series/solo-x"), "solo-x");
}

#[test]
fn chapter_id_is_the_segment_after_the_item() {
    let cfg = anima_regia_config();
    assert_eq!(chapter_id_from_href(&cfg, "http://animaregia.net/manga/x/c12"), "c12");
}

#[test]
fn handle_url_resolves_an_item_link() {
    let cfg = reaper_scans_config();
    let link = handle_url(&cfg, "https://reaperscansar.com/series/alpha").unwrap();
    assert_eq!(link.item_id, "alpha");
    assert!(link.chapter_id.is_none());
}

#[test]
fn handle_url_resolves_a_chapter_link() {
    let cfg = reaper_scans_config();
    let link = handle_url(&cfg, "https://reaperscansar.com/series/alpha/chapter-2/").unwrap();
    assert_eq!(link.item_id, "alpha");
    assert_eq!(link.chapter_id.as_deref(), Some("chapter-2"));
}

#[test]
fn handle_url_rejects_foreign_shapes() {
    let cfg = reaper_scans_config();
    let r = handle_url(&cfg, "https://example.com/series/alpha");
    assert!(matches!(r, Err(EngineError::UnresolvedUrl)));
    let r2 = handle_url(&cfg, "https://reaperscansar.com/news/alpha");
    assert!(matches!(r2, Err(EngineError::UnresolvedUrl)));
}
