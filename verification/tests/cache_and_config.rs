use site_engine::cache::PageCache;
use site_engine::config::classify_status;
use site_engine::config::config_ok;
use site_engine::config::StatusRule;
use site_engine::docs::DetailDocument;
use site_engine::entities::Status;
use site_engine::sites::anima_regia_config;
use site_engine::sites::reaper_scans_config;
use site_engine::urls::item_url;

fn detail_doc(title: &str) -> DetailDocument {
    DetailDocument {
        title: String::from(title),
        cover: String::new(),
        description_paragraphs: Vec::new(),
        rows: Vec::new(),
        status_text: String::new(),
        mature_marker: false,
    }
}

#[test]
fn cache_hit_needs_no_second_fetch() {
    let cfg = anima_regia_config();
    let url = item_url(&cfg, "medo-mortal");
    let mut cache = PageCache::new();
    assert!(cache.needs_fetch(&url));
    cache.store(url.clone(), detail_doc("Medo Mortal"));
    assert!(!cache.needs_fetch(&url));
    let held = cache.get(&url).expect("the stored URL must hit");
    assert_eq!(held.title, "Medo Mortal");
}

#[test]
fn changing_the_identifier_invalidates_the_cache() {
    let cfg = anima_regia_config();
    let first = item_url(&cfg, "medo-mortal");
    let second = item_url(&cfg, "outro-item");
    let mut cache = PageCache::new();
    cache.store(first.clone(), detail_doc("Medo Mortal"));
    assert!(cache.needs_fetch(&second));
    assert!(cache.get(&second).is_none());
    cache.store(second.clone(), detail_doc("Outro Item"));
    assert!(!cache.needs_fetch(&second));
    assert!(cache.needs_fetch(&first));
}

#[test]
fn status_classification_is_case_insensitive_and_total() {
    let cfg = anima_regia_config();
    assert_eq!(classify_status(&cfg.status_labels, "ativo"), Status::Ongoing);
    assert_eq!(classify_status(&cfg.status_labels, "COMPLETO"), Status::Completed);
    assert_eq!(classify_status(&cfg.status_labels, "Concluído"), Status::Completed);
    assert_eq!(classify_status(&cfg.status_labels, "Cancelado"), Status::Cancelled);
    assert_eq!(classify_status(&cfg.status_labels, "Pausado"), Status::Hiatus);
    assert_eq!(classify_status(&cfg.status_labels, "???"), Status::Unknown);
    assert_eq!(classify_status(&cfg.status_labels, ""), Status::Unknown);
}

#[test]
fn arabic_status_labels_classify_exactly() {
    let cfg = reaper_scans_config();
    assert_eq!(classify_status(&cfg.status_labels, "مستمر"), Status::Ongoing);
    assert_eq!(classify_status(&cfg.status_labels, "مكتمل"), Status::Completed);
    assert_eq!(classify_status(&cfg.status_labels, "ملغى"), Status::Cancelled);
    assert_eq!(classify_status(&cfg.status_labels, "on hold"), Status::Hiatus);
    assert_eq!(classify_status(&cfg.status_labels, "cancelled"), Status::Unknown);
}

#[test]
fn shipped_configurations_are_well_formed() {
    assert!(config_ok(&reaper_scans_config()));
    assert!(config_ok(&anima_regia_config()));
}

#[test]
fn storing_a_new_document_overwrites_the_slot() {
    let cfg = anima_regia_config();
    let url = item_url(&cfg, "medo-mortal");
    let mut cache = PageCache::new();
    cache.store(url.clone(), detail_doc("Old"));
    cache.store(url.clone(), detail_doc("New"));
    let held = cache.get(&url).expect("the stored URL must hit");
    assert_eq!(held.title, "New");
}

#[test]
fn rules_with_empty_labels_or_unknown_status_are_rejected() {
    let mut empty_label = anima_regia_config();
    empty_label.status_labels.push(StatusRule { label: String::new(), status: Status::Ongoing });
    assert!(!config_ok(&empty_label));

    let mut unknown_rule = anima_regia_config();
    unknown_rule.status_labels.push(StatusRule {
        label: String::from("Misterioso"),
        status: Status::Unknown,
    });
    assert!(!config_ok(&unknown_rule));
}

#[test]
fn broken_configurations_are_rejected() {
    let mut trailing = anima_regia_config();
    trailing.base_url = String::from("http://animaregia.net/");
    assert!(!config_ok(&trailing));

    let mut partial = anima_regia_config();
    partial.status_labels = vec![StatusRule {
        label: String::from("Ativo"),
        status: Status::Ongoing,
    }];
    assert!(!config_ok(&partial));
}
