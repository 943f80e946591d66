use site_engine::chapters::chapters_from_document;
use site_engine::chapters::image_request_headers;
use site_engine::chapters::pages_from_document;
use site_engine::details::details_from_document;
use site_engine::docs::CatalogDocument;
use site_engine::docs::ChapterDocument;
use site_engine::docs::ChapterLink;
use site_engine::docs::DetailDocument;
use site_engine::docs::InfoRow;
use site_engine::docs::ItemCard;
use site_engine::docs::PageDocument;
use site_engine::entities::ContentRating;
use site_engine::entities::Direction;
use site_engine::entities::Status;
use site_engine::listing::list_from_document;
use site_engine::sites::anima_regia_config;
use site_engine::sites::reaper_scans_config;

fn row(text: &str, links: Vec<&str>, status_label: &str) -> InfoRow {
    InfoRow {
        text: String::from(text),
        links: links.into_iter().map(String::from).collect(),
        status_label: String::from(status_label),
    }
}

fn empty_detail_doc() -> DetailDocument {
    DetailDocument {
        title: String::new(),
        cover: String::new(),
        description_paragraphs: Vec::new(),
        rows: Vec::new(),
        status_text: String::new(),
        mature_marker: false,
    }
}

#[test]
fn catalog_page_with_next_link_yields_twenty_distinct_summaries() {
    let cfg = reaper_scans_config();
    let mut cards = Vec::new();
    for i in 0..20 {
        cards.push(ItemCard {
            href: format!("/series/item-{}", i),
            title: format!("Item {}", i),
            cover: format!("https://reaperscansar.com/cover/{}.jpg", i),
        });
    }
    let doc = CatalogDocument { cards, has_next_link: true };
    let page = list_from_document(&cfg, &doc);
    assert!(page.has_more);
    assert_eq!(page.items.len(), 20);
    for i in 0..20 {
        assert_eq!(page.items[i].id, format!("item-{}", i));
        for j in 0..i {
            assert_ne!(page.items[i].id, page.items[j].id);
        }
    }
}

#[test]
fn empty_catalog_page_never_claims_more() {
    let cfg = reaper_scans_config();
    let doc = CatalogDocument { cards: Vec::new(), has_next_link: true };
    let page = list_from_document(&cfg, &doc);
    assert!(page.items.is_empty());
    assert!(!page.has_more);
}

#[test]
fn cards_without_identifier_or_title_are_dropped() {
    let cfg = reaper_scans_config();
    let cards = vec![
        ItemCard {
            href: String::from("/series/good"),
            title: String::from("Good"),
            cover: String::new(),
        },
        ItemCard { href: String::from("/series/"), title: String::from("No Id"), cover: String::new() },
        ItemCard { href: String::from("/series/untitled"), title: String::new(), cover: String::new() },
    ];
    let doc = CatalogDocument { cards, has_next_link: false };
    let page = list_from_document(&cfg, &doc);
    assert_eq!(page.items.len(), 1);
    assert_eq!(page.items[0].id, "good");
    assert!(!page.has_more);
}

#[test]
fn full_page_policy_decides_has_more_by_item_count() {
    let cfg = anima_regia_config();
    let mut cards = Vec::new();
    for i in 0..20 {
        cards.push(ItemCard {
            href: format!("/manga/m{}", i),
            title: format!("M{}", i),
            cover: String::new(),
        });
    }
    let full = CatalogDocument { cards: cards.clone(), has_next_link: false };
    assert!(list_from_document(&cfg, &full).has_more);
    cards.pop();
    let short = CatalogDocument { cards, has_next_link: true };
    assert!(!list_from_document(&cfg, &short).has_more);
}

#[test]
fn listing_titles_lose_the_locale_suffix() {
    let cfg = anima_regia_config();
    let cards = vec![ItemCard {
        href: String::from("/manga/medo"),
        title: String::from("Medo Mortal (pt-br)"),
        cover: String::new(),
    }];
    let doc = CatalogDocument { cards, has_next_link: false };
    let page = list_from_document(&cfg, &doc);
    assert_eq!(page.items[0].title, "Medo Mortal");
}

#[test]
fn detail_extraction_fills_every_field() {
    let cfg = anima_regia_config();
    let doc = DetailDocument {
        title: String::from("Medo Mortal (pt-br)"),
        cover: String::from("http://animaregia.net/thumb.jpg"),
        description_paragraphs: vec![String::from("Primeira."), String::from("Segunda.")],
        rows: vec![
            row("Autor(es): A, B", vec!["Ana", "Bruno"], ""),
            row("Artist(s): C", vec!["Carla"], ""),
            row("Categorias: ...", vec!["Ação", "Aventura"], ""),
            row("Status: ", vec![], " Concluído "),
            row("Views: 12345", vec![], ""),
        ],
        status_text: String::new(),
        mature_marker: false,
    };
    let d = details_from_document(&cfg, "medo-mortal", &doc);
    assert_eq!(d.id, "medo-mortal");
    assert_eq!(d.title, "Medo Mortal");
    assert_eq!(d.cover, "http://animaregia.net/thumb.jpg");
    assert_eq!(d.description, "Primeira.\nSegunda.");
    assert_eq!(d.author, "Ana, Bruno");
    assert_eq!(d.artist, "Carla");
    assert_eq!(d.categories, vec![String::from("Ação"), String::from("Aventura")]);
    assert_eq!(d.status, Status::Completed);
    assert_eq!(d.rating, ContentRating::Safe);
    assert_eq!(d.direction, Direction::LeftToRight);
    assert_eq!(d.url, "http://animaregia.net/manga/medo-mortal");
}

#[test]
fn status_row_with_translated_completed_label_resolves_completed() {
    let cfg = anima_regia_config();
    let mut doc = empty_detail_doc();
    doc.rows = vec![row("Status: x", vec![], "Concluído")];
    let d = details_from_document(&cfg, "x", &doc);
    assert_eq!(d.status, Status::Completed);
}

#[test]
fn dedicated_status_text_settles_status_when_no_row_did() {
    let cfg = reaper_scans_config();
    let mut doc = empty_detail_doc();
    doc.status_text = String::from(" مستمر ");
    let d = details_from_document(&cfg, "alpha", &doc);
    assert_eq!(d.status, Status::Ongoing);
}

#[test]
fn unmatched_status_text_degrades_to_unknown() {
    let cfg = anima_regia_config();
    let mut doc = empty_detail_doc();
    doc.status_text = String::from("algo estranho");
    let d = details_from_document(&cfg, "x", &doc);
    assert_eq!(d.status, Status::Unknown);
}

#[test]
fn mature_marker_escalates_rating_over_the_category_rule() {
    let cfg = anima_regia_config();
    let mut doc = empty_detail_doc();
    doc.mature_marker = true;
    let d = details_from_document(&cfg, "x", &doc);
    assert_eq!(d.rating, ContentRating::Adult);
}

#[test]
fn adult_tag_alone_sets_the_adult_rating() {
    let cfg = anima_regia_config();
    let mut doc = empty_detail_doc();
    doc.rows = vec![row("Categorias: x", vec!["adulto"], "")];
    let d = details_from_document(&cfg, "x", &doc);
    assert_eq!(d.rating, ContentRating::Adult);
}

#[test]
fn unrecognized_rows_are_ignored_not_errors() {
    let cfg = anima_regia_config();
    let mut doc = empty_detail_doc();
    doc.rows = vec![row("Visualizações: 9000", vec!["x"], ""), row("sem dois pontos", vec!["y"], "")];
    let d = details_from_document(&cfg, "x", &doc);
    assert_eq!(d.author, "");
    assert_eq!(d.artist, "");
    assert!(d.categories.is_empty());
    assert_eq!(d.status, Status::Unknown);
}

#[test]
fn chapters_keep_document_order_and_strip_the_prefix() {
    let cfg = anima_regia_config();
    let doc = ChapterDocument {
        entries: vec![
            ChapterLink {
                href: String::from("http://animaregia.net/manga/x/c2"),
                title: String::from("Capítulo 2 - O Retorno"),
            },
            ChapterLink {
                href: String::from("/manga/x/c1"),
                title: String::from("Prólogo"),
            },
        ],
    };
    let chapters = chapters_from_document(&cfg, &doc);
    assert_eq!(chapters.len(), 2);
    assert_eq!(chapters[0].id, "c2");
    assert_eq!(chapters[0].title, "O Retorno");
    assert_eq!(chapters[0].ordinal, 0);
    assert_eq!(chapters[0].url, "http://animaregia.net/manga/x/c2");
    assert_eq!(chapters[1].id, "c1");
    assert_eq!(chapters[1].title, "Prólogo");
    assert_eq!(chapters[1].ordinal, 1);
}

#[test]
fn reading_pages_are_numbered_from_zero_in_order() {
    let doc = PageDocument {
        image_urls: vec![
            String::from("http://animaregia.net/p/1.jpg"),
            String::from("http://animaregia.net/p/2.jpg"),
            String::from("http://animaregia.net/p/3.jpg"),
        ],
    };
    let pages = pages_from_document(&doc);
    assert_eq!(pages.len(), 3);
    for (i, p) in pages.iter().enumerate() {
        assert_eq!(p.index, i);
        assert_eq!(p.url, format!("http://animaregia.net/p/{}.jpg", i + 1));
    }
}

#[test]
fn image_request_headers_follow_the_referer_switch() {
    let with = image_request_headers(&anima_regia_config());
    assert_eq!(with.len(), 1);
    assert_eq!(with[0].0, "Referer");
    assert_eq!(with[0].1, "http://animaregia.net/");
    let without = image_request_headers(&reaper_scans_config());
    assert!(without.is_empty());
}
