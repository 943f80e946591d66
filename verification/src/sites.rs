//! Ready-made configurations for the two supported site families: one
//! Arabic-locale site whose catalog goes through an ajax endpoint, and one
//! Portuguese-locale site that marks titles with a locale suffix.
//!
//! Per-family has-more choice: the ajax family carries a next-page link,
//! so its rule is `NextLink`; the other family paginates silently, so its
//! rule is a full page of twenty items.

use vstd::prelude::*;

use crate::config::{LabelRule, MorePolicy, RowKind, SiteConfig, StatusRule, covers};
use crate::entities::{Direction, Status};

verus! {

/// Configuration of the Arabic-locale site of the ajax catalog family.
pub fn reaper_scans_config() -> (c: SiteConfig)
    ensures
        c.wf(),
        c.base_url@ == "https://reaperscansar.com"@,
        c.item_path@ == "series"@,
        c.alt_ajax,
        c.locale_suffix@.len() == 0,
        c.more_policy == MorePolicy::NextLink,
{
    let mut status_labels: Vec<StatusRule> = Vec::new();
    status_labels.push(StatusRule { label: "مستمر".to_owned(), status: Status::Ongoing });
    status_labels.push(StatusRule { label: "مكتمل".to_owned(), status: Status::Completed });
    status_labels.push(StatusRule { label: "ملغى".to_owned(), status: Status::Cancelled });
    status_labels.push(StatusRule { label: "متوقفة".to_owned(), status: Status::Hiatus });
    status_labels.push(StatusRule { label: "On Hold".to_owned(), status: Status::Hiatus });
    let mut row_vocabulary: Vec<LabelRule> = Vec::new();
    row_vocabulary.push(LabelRule { label: "author(s)".to_owned(), kind: RowKind::Author });
    row_vocabulary.push(LabelRule { label: "artist(s)".to_owned(), kind: RowKind::Artist });
    row_vocabulary.push(LabelRule { label: "genre(s)".to_owned(), kind: RowKind::Categories });
    row_vocabulary.push(LabelRule { label: "الحالة".to_owned(), kind: RowKind::Status });
    let mut adult_markers: Vec<String> = Vec::new();
    adult_markers.push("Adult".to_owned());
    adult_markers.push("Mature".to_owned());
    let c = SiteConfig {
        base_url: "https://reaperscansar.com".to_owned(),
        catalog_path: "series".to_owned(),
        item_path: "series".to_owned(),
        ajax_path: "wp-admin/admin-ajax.php".to_owned(),
        alt_ajax: true,
        locale: "ar".to_owned(),
        locale_suffix: "".to_owned(),
        status_labels,
        row_vocabulary,
        adult_markers,
        chapter_separator: " - ".to_owned(),
        default_direction: Direction::RightToLeft,
        more_policy: MorePolicy::NextLink,
        referer_for_images: false,
    };
    proof {
        reveal_strlit("https://reaperscansar.com");
        reveal_strlit("series");
        reveal_strlit("");
        reveal_strlit("مستمر");
        reveal_strlit("مكتمل");
        reveal_strlit("ملغى");
        reveal_strlit("متوقفة");
        reveal_strlit("On Hold");
        reveal_strlit("author(s)");
        reveal_strlit("artist(s)");
        reveal_strlit("genre(s)");
        reveal_strlit("الحالة");
        assert(covers(c.status_labels@, Status::Ongoing)) by {
            assert(c.status_labels@[0].status == Status::Ongoing);
        }
        assert(covers(c.status_labels@, Status::Completed)) by {
            assert(c.status_labels@[1].status == Status::Completed);
        }
        assert(covers(c.status_labels@, Status::Cancelled)) by {
            assert(c.status_labels@[2].status == Status::Cancelled);
        }
        assert(covers(c.status_labels@, Status::Hiatus)) by {
            assert(c.status_labels@[3].status == Status::Hiatus);
        }
    }
    c
}

/// Configuration of the Portuguese-locale site whose titles carry a
/// ` (pt-br)` locale suffix.
pub fn anima_regia_config() -> (c: SiteConfig)
    ensures
        c.wf(),
        c.base_url@ == "http://animaregia.net"@,
        c.item_path@ == "manga"@,
        !c.alt_ajax,
        c.locale_suffix@ == " (pt-br)"@,
        c.more_policy == MorePolicy::FullPage(20),
        c.referer_for_images,
{
    let mut status_labels: Vec<StatusRule> = Vec::new();
    status_labels.push(StatusRule { label: "Completo".to_owned(), status: Status::Completed });
    status_labels.push(StatusRule { label: "Concluído".to_owned(), status: Status::Completed });
    status_labels.push(StatusRule { label: "Ativo".to_owned(), status: Status::Ongoing });
    status_labels.push(StatusRule { label: "Cancelado".to_owned(), status: Status::Cancelled });
    status_labels.push(StatusRule { label: "Pausado".to_owned(), status: Status::Hiatus });
    let mut row_vocabulary: Vec<LabelRule> = Vec::new();
    row_vocabulary.push(LabelRule { label: "autor(es)".to_owned(), kind: RowKind::Author });
    row_vocabulary.push(LabelRule { label: "artist(s)".to_owned(), kind: RowKind::Artist });
    row_vocabulary.push(LabelRule { label: "categorias".to_owned(), kind: RowKind::Categories });
    row_vocabulary.push(LabelRule { label: "status".to_owned(), kind: RowKind::Status });
    let mut adult_markers: Vec<String> = Vec::new();
    adult_markers.push("Adulto".to_owned());
    adult_markers.push("Mature".to_owned());
    let c = SiteConfig {
        base_url: "http://animaregia.net".to_owned(),
        catalog_path: "filterList".to_owned(),
        item_path: "manga".to_owned(),
        ajax_path: "filterList".to_owned(),
        alt_ajax: false,
        locale: "pt-BR".to_owned(),
        locale_suffix: " (pt-br)".to_owned(),
        status_labels,
        row_vocabulary,
        adult_markers,
        chapter_separator: " - ".to_owned(),
        default_direction: Direction::LeftToRight,
        more_policy: MorePolicy::FullPage(20),
        referer_for_images: true,
    };
    proof {
        reveal_strlit("http://animaregia.net");
        reveal_strlit("manga");
        reveal_strlit("filterList");
        reveal_strlit(" (pt-br)");
        reveal_strlit("Completo");
        reveal_strlit("Concluído");
        reveal_strlit("Ativo");
        reveal_strlit("Cancelado");
        reveal_strlit("Pausado");
        reveal_strlit("autor(es)");
        reveal_strlit("artist(s)");
        reveal_strlit("categorias");
        reveal_strlit("status");
        assert(covers(c.status_labels@, Status::Ongoing)) by {
            assert(c.status_labels@[2].status == Status::Ongoing);
        }
        assert(covers(c.status_labels@, Status::Completed)) by {
            assert(c.status_labels@[0].status == Status::Completed);
        }
        assert(covers(c.status_labels@, Status::Cancelled)) by {
            assert(c.status_labels@[3].status == Status::Cancelled);
        }
        assert(covers(c.status_labels@, Status::Hiatus)) by {
            assert(c.status_labels@[4].status == Status::Hiatus);
        }
    }
    c
}

} // verus!
