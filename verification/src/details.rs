//! The detail extractor: one item's detail page into a fully populated
//! entity. Every field is extracted tolerantly: a missing row or label
//! degrades that field to its default instead of failing the extraction.

use vstd::prelude::*;

use crate::config::{
    has_adult_tag, spec_classify_status, LabelRule, RowKind, SiteConfig,
    classify_category, classify_status,
};
use crate::docs::{DetailDocument, InfoRow};
use crate::entities::{ContentRating, ItemDetail, Status};
use crate::text::{
    find_from, find_sub, join_strings, join_with, seq_eq_ci, strip_suffix_all,
    strip_suffix_repeat, trim, trim_spec, views_of,
};
use crate::urls::{item_url, spec_item_url};

verus! {

/// What the labeled info rows of a detail page yield.
pub struct RowFields {
    pub author: Seq<char>,
    pub artist: Seq<char>,
    pub categories: Seq<Seq<char>>,
    pub status: Status,
}

/// The fields before any row was read: empty texts, no categories, status
/// unknown.
pub open spec fn init_fields() -> RowFields {
    RowFields {
        author: Seq::empty(),
        artist: Seq::empty(),
        categories: Seq::empty(),
        status: Status::Unknown,
    }
}

/// The normalized label of one info row: what stands before the first
/// colon, trimmed. A row without a colon has no label and feeds nothing.
pub open spec fn row_label_of(text: Seq<char>) -> Seq<char> {
    match find_from(text, seq![':'], 0) {
        Some(i) => trim_spec(text.subrange(0, i)),
        None => Seq::empty(),
    }
}

/// The field a normalized label feeds: decided by the first
/// case-insensitive match in the vocabulary, none for an unrecognized
/// label.
pub open spec fn row_kind_of(vocab: Seq<LabelRule>, label: Seq<char>) -> Option<RowKind>
    decreases vocab.len(),
{
    if vocab.len() == 0 {
        None
    } else if seq_eq_ci(vocab[0].label@, label) {
        Some(vocab[0].kind)
    } else {
        row_kind_of(vocab.subrange(1, vocab.len() as int), label)
    }
}

/// How one info row updates the fields gathered so far: author and artist
/// rows join their link texts, category rows append theirs, a status row
/// classifies its badge text, an unrecognized row changes nothing.
pub open spec fn apply_row(cfg: SiteConfig, acc: RowFields, row: InfoRow) -> RowFields {
    match row_kind_of(cfg.row_vocabulary@, row_label_of(row.text@)) {
        Some(RowKind::Author) => RowFields {
            author: join_with(views_of(row.links@), seq![',', ' ']),
            ..acc
        },
        Some(RowKind::Artist) => RowFields {
            artist: join_with(views_of(row.links@), seq![',', ' ']),
            ..acc
        },
        Some(RowKind::Categories) => RowFields {
            categories: acc.categories + views_of(row.links@),
            ..acc
        },
        Some(RowKind::Status) => RowFields {
            status: spec_classify_status(cfg.status_labels@, trim_spec(row.status_label@)),
            ..acc
        },
        None => acc,
    }
}

/// The fields all info rows of a page yield, read in document order.
pub open spec fn fold_rows(cfg: SiteConfig, rows: Seq<InfoRow>) -> RowFields
    decreases rows.len(),
{
    if rows.len() == 0 {
        init_fields()
    } else {
        apply_row(cfg, fold_rows(cfg, rows.drop_last()), rows.last())
    }
}

/// The status a detail page resolves to: what its status row said, or,
/// when no row settled it, the classification of the page's dedicated
/// status text.
pub open spec fn spec_final_status(cfg: SiteConfig, doc: DetailDocument) -> Status {
    let f = fold_rows(cfg, doc.rows@);
    if f.status != Status::Unknown {
        f.status
    } else {
        spec_classify_status(cfg.status_labels@, trim_spec(doc.status_text@))
    }
}

/// The content rating a detail page resolves to: the category rule's
/// answer, escalated to the adult rating whenever the mature-content
/// marker is present. The escalation is final and overrides the rule.
pub open spec fn spec_final_rating(cfg: SiteConfig, doc: DetailDocument, cats: Seq<String>)
    -> ContentRating {
    if doc.mature_marker {
        ContentRating::Adult
    } else if has_adult_tag(cfg.adult_markers@, cats) {
        ContentRating::Adult
    } else {
        ContentRating::Safe
    }
}

/// Normalized label of one info row.
pub fn row_label(text: &str) -> (r: String)
    ensures
        r@ == row_label_of(text@),
{
    proof {
        reveal_strlit(":");
        assert(":"@ =~= seq![':']);
    }
    match find_sub(text, ":") {
        Some(i) => {
            proof {
                crate::text::lemma_find_from_in_range(text@, ":"@, 0);
            }
            let head = text.substring_char(0, i).to_owned();
            trim(head.as_str())
        },
        None => String::new(),
    }
}

/// The field a label feeds, by the configured vocabulary.
pub fn lookup_row_kind(vocab: &Vec<LabelRule>, label: &str) -> (r: Option<RowKind>)
    ensures
        r == row_kind_of(vocab@, label@),
{
    let n: usize = vocab.len();
    proof {
        assert(vocab@.subrange(0, n as int) =~= vocab@);
    }
    let mut i: usize = 0;
    while i < n
        invariant
            n == vocab@.len(),
            i <= n,
            row_kind_of(vocab@, label@) == row_kind_of(vocab@.subrange(i as int, n as int), label@),
        decreases n - i,
    {
        proof {
            let part = vocab@.subrange(i as int, n as int);
            assert(part.subrange(1, part.len() as int) =~= vocab@.subrange(i + 1, n as int));
            assert(part[0] == vocab@[i as int]);
        }
        if crate::text::str_eq_ci(vocab[i].label.as_str(), label) {
            return Some(vocab[i].kind);
        }
        i = i + 1;
    }
    None
}

/// Turn a detail page into a fully populated entity.
///
/// The title loses its locale suffix, the description keeps its paragraph
/// breaks, the info rows feed author, artist, categories and status, the
/// dedicated status text settles the status when no row did, and the
/// mature-content marker escalates the rating no matter what the category
/// rule said.
pub fn details_from_document(cfg: &SiteConfig, id: &str, doc: &DetailDocument) -> (r: ItemDetail)
    requires
        cfg.wf(),
    ensures
        r.id@ == id@,
        r.title@ == strip_suffix_all(doc.title@, cfg.locale_suffix@),
        r.cover@ == doc.cover@,
        r.description@ == join_with(views_of(doc.description_paragraphs@), seq!['\n']),
        r.author@ == fold_rows(*cfg, doc.rows@).author,
        r.artist@ == fold_rows(*cfg, doc.rows@).artist,
        views_of(r.categories@) == fold_rows(*cfg, doc.rows@).categories,
        r.status == spec_final_status(*cfg, *doc),
        r.rating == spec_final_rating(*cfg, *doc, r.categories@),
        doc.mature_marker ==> r.rating == ContentRating::Adult,
        r.direction == cfg.default_direction,
        r.url@ == spec_item_url(*cfg, id@),
{
    proof {
        reveal_strlit("\n");
        assert("\n"@ =~= seq!['\n']);
        reveal_strlit(", ");
        assert(", "@ =~= seq![',', ' ']);
    }
    let title = strip_suffix_repeat(doc.title.as_str(), cfg.locale_suffix.as_str());
    let description = join_strings(&doc.description_paragraphs, "\n");
    let url = item_url(cfg, id);

    let mut author = String::new();
    let mut artist = String::new();
    let mut categories: Vec<String> = Vec::new();
    let mut status = Status::Unknown;
    let n: usize = doc.rows.len();
    proof {
        assert(doc.rows@.subrange(0, 0) =~= Seq::<InfoRow>::empty());
        assert(views_of(categories@) =~= init_fields().categories);
    }
    let mut i: usize = 0;
    while i < n
        invariant
            n == doc.rows@.len(),
            i <= n,
            author@ == fold_rows(*cfg, doc.rows@.subrange(0, i as int)).author,
            artist@ == fold_rows(*cfg, doc.rows@.subrange(0, i as int)).artist,
            views_of(categories@) == fold_rows(*cfg, doc.rows@.subrange(0, i as int)).categories,
            status == fold_rows(*cfg, doc.rows@.subrange(0, i as int)).status,
        decreases n - i,
    {
        proof {
            reveal_strlit(", ");
            assert(", "@ =~= seq![',', ' ']);
        }
        let row = &doc.rows[i];
        let label = row_label(row.text.as_str());
        let ghost pre = fold_rows(*cfg, doc.rows@.subrange(0, i as int));
        match lookup_row_kind(&cfg.row_vocabulary, label.as_str()) {
            Some(RowKind::Author) => {
                author = join_strings(&row.links, ", ");
            },
            Some(RowKind::Artist) => {
                artist = join_strings(&row.links, ", ");
            },
            Some(RowKind::Categories) => {
                let m: usize = row.links.len();
                proof {
                    assert(views_of(row.links@.subrange(0, 0)) =~= Seq::<Seq<char>>::empty());
                    assert(pre.categories + Seq::<Seq<char>>::empty() =~= pre.categories);
                }
                let mut j: usize = 0;
                while j < m
                    invariant
                        m == row.links@.len(),
                        j <= m,
                        views_of(categories@) == pre.categories + views_of(
                            row.links@.subrange(0, j as int),
                        ),
                    decreases m - j,
                {
                    let ghost cats0 = categories@;
                    categories.push(row.links[j].clone());
                    proof {
                        assert(row.links@.subrange(0, j + 1) =~= row.links@.subrange(
                            0,
                            j as int,
                        ).push(row.links@[j as int]));
                        assert(views_of(row.links@.subrange(0, j + 1)) =~= views_of(
                            row.links@.subrange(0, j as int),
                        ).push(row.links@[j as int]@));
                        assert(views_of(categories@) =~= views_of(cats0).push(
                            row.links@[j as int]@,
                        ));
                        assert(views_of(categories@) =~= pre.categories + views_of(
                            row.links@.subrange(0, j + 1),
                        ));
                    }
                    j = j + 1;
                }
                proof {
                    assert(row.links@.subrange(0, m as int) =~= row.links@);
                }
            },
            Some(RowKind::Status) => {
                let t = trim(row.status_label.as_str());
                status = classify_status(&cfg.status_labels, t.as_str());
            },
            None => {},
        }
        proof {
            assert(doc.rows@.subrange(0, i + 1).drop_last() =~= doc.rows@.subrange(0, i as int));
            assert(doc.rows@.subrange(0, i + 1).last() == doc.rows@[i as int]);
            assert(pre.categories + views_of(Seq::<String>::empty()) =~= pre.categories);
        }
        i = i + 1;
    }
    proof {
        assert(doc.rows@.subrange(0, n as int) =~= doc.rows@);
    }
    let status = if status == Status::Unknown {
        let t = trim(doc.status_text.as_str());
        classify_status(&cfg.status_labels, t.as_str())
    } else {
        status
    };
    let pair = classify_category(cfg, &categories);
    let rating = if doc.mature_marker {
        ContentRating::Adult
    } else {
        pair.0
    };
    ItemDetail {
        id: id.to_owned(),
        title,
        cover: doc.cover.clone(),
        description,
        author,
        artist,
        categories,
        status,
        rating,
        direction: pair.1,
        url,
    }
}

} // verus!
