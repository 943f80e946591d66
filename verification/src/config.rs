//! Site configuration: the immutable record one adapter supplies, and the
//! default classification rules driven by it.

use vstd::prelude::*;

use crate::entities::{ContentRating, Direction, Status};
use crate::text::{lower_char, seq_eq_ci, str_eq_ci};

verus! {

/// Which detail field a recognized info-row label feeds.
#[derive(Clone, Copy, PartialEq, Eq, Structural, Debug)]
pub enum RowKind {
    Author,
    Artist,
    Categories,
    Status,
}

/// One entry of the info-row vocabulary: a normalized label and the field
/// it feeds.
#[derive(Clone, Debug)]
pub struct LabelRule {
    pub label: String,
    pub kind: RowKind,
}

/// One entry of the status translation table: a locale-specific label and
/// the status it stands for.
#[derive(Clone, Debug)]
pub struct StatusRule {
    pub label: String,
    pub status: Status,
}

/// How a catalog page decides that more pages follow.
#[derive(Clone, Copy, PartialEq, Eq, Structural, Debug)]
pub enum MorePolicy {
    /// More pages follow iff the document carries a next-page link.
    NextLink,
    /// More pages follow iff exactly a full page of this many items came
    /// back.
    FullPage(usize),
}

/// Everything one adapter states about its site.
#[derive(Clone, Debug)]
pub struct SiteConfig {
    /// Site root, without a trailing slash.
    pub base_url: String,
    /// Path segment of catalog pages.
    pub catalog_path: String,
    /// Path segment under which item detail pages live.
    pub item_path: String,
    /// Path segment of the alternate ajax catalog endpoint.
    pub ajax_path: String,
    /// Whether catalog requests go through the ajax endpoint.
    pub alt_ajax: bool,
    /// Locale tag of the site, such as `pt-BR`.
    pub locale: String,
    /// Locale marker suffix to strip off titles; empty when the locale
    /// needs no strip.
    pub locale_suffix: String,
    /// Ordered translation table for status labels.
    pub status_labels: Vec<StatusRule>,
    /// Ordered vocabulary of recognized info-row labels.
    pub row_vocabulary: Vec<LabelRule>,
    /// Tags that mark adult content.
    pub adult_markers: Vec<String>,
    /// Separator between a chapter's number prefix and its real title.
    pub chapter_separator: String,
    /// Reading direction the site's items default to.
    pub default_direction: Direction,
    /// The site family's has-more decision rule.
    pub more_policy: MorePolicy,
    /// Whether image fetches need a referer header pointing at the site.
    pub referer_for_images: bool,
}

/// The translation table names `st` at least once.
pub open spec fn covers(labels: Seq<StatusRule>, st: Status) -> bool {
    exists|i: int| 0 <= i < labels.len() && labels[i].status == st
}

impl SiteConfig {
    /// Well-formedness: the URL pieces are usable and the translation table
    /// is total over the four recognized statuses.
    pub open spec fn wf(self) -> bool {
        &&& self.base_url@.len() > 0
        &&& self.base_url@[self.base_url@.len() - 1] != '/'
        &&& self.catalog_path@.len() > 0
        &&& self.item_path@.len() > 0
        &&& (forall|i: int|
            0 <= i < self.status_labels@.len() ==> {
                &&& (#[trigger] self.status_labels@[i]).label@.len() > 0
                &&& self.status_labels@[i].status != Status::Unknown
            })
        &&& (forall|i: int|
            0 <= i < self.row_vocabulary@.len()
                ==> (#[trigger] self.row_vocabulary@[i]).label@.len() > 0)
        &&& covers(self.status_labels@, Status::Ongoing)
        &&& covers(self.status_labels@, Status::Completed)
        &&& covers(self.status_labels@, Status::Cancelled)
        &&& covers(self.status_labels@, Status::Hiatus)
        &&& (self.more_policy matches MorePolicy::FullPage(n) ==> n >= 1)
    }
}

/// Decide well-formedness at run time, for callers outside the verified
/// world that assembled a configuration by hand.
pub fn config_ok(cfg: &SiteConfig) -> (r: bool)
    ensures
        r == cfg.wf(),
{
    let base_len: usize = cfg.base_url.as_str().unicode_len();
    if base_len == 0 {
        return false;
    }
    if cfg.base_url.as_str().get_char(base_len - 1) == '/' {
        return false;
    }
    if cfg.catalog_path.as_str().unicode_len() == 0 {
        return false;
    }
    if cfg.item_path.as_str().unicode_len() == 0 {
        return false;
    }
    match cfg.more_policy {
        MorePolicy::FullPage(n) => {
            if n < 1 {
                return false;
            }
        },
        MorePolicy::NextLink => {},
    }
    let nl: usize = cfg.status_labels.len();
    let mut covered_ongoing = false;
    let mut covered_completed = false;
    let mut covered_cancelled = false;
    let mut covered_hiatus = false;
    let mut i: usize = 0;
    while i < nl
        invariant
            nl == cfg.status_labels@.len(),
            i <= nl,
            forall|k: int|
                0 <= k < i ==> {
                    &&& (#[trigger] cfg.status_labels@[k]).label@.len() > 0
                    &&& cfg.status_labels@[k].status != Status::Unknown
                },
            covered_ongoing == covers(cfg.status_labels@.subrange(0, i as int), Status::Ongoing),
            covered_completed == covers(
                cfg.status_labels@.subrange(0, i as int),
                Status::Completed,
            ),
            covered_cancelled == covers(
                cfg.status_labels@.subrange(0, i as int),
                Status::Cancelled,
            ),
            covered_hiatus == covers(cfg.status_labels@.subrange(0, i as int), Status::Hiatus),
        decreases nl - i,
    {
        let rule = &cfg.status_labels[i];
        if rule.label.as_str().unicode_len() == 0 {
            proof {
                assert(cfg.status_labels@[i as int].label@.len() == 0);
            }
            return false;
        }
        if rule.status == Status::Unknown {
            return false;
        }
        proof {
            let pre = cfg.status_labels@.subrange(0, i as int);
            let post = cfg.status_labels@.subrange(0, i + 1);
            assert(post.drop_last() =~= pre);
            assert(post[i as int] == cfg.status_labels@[i as int]);
            assert forall|st: Status| covers(post, st) == (covers(pre, st) || cfg.status_labels@[i as int].status == st) by {
                if covers(pre, st) {
                    let w = choose|k: int| 0 <= k < pre.len() && pre[k].status == st;
                    assert(post[w].status == st);
                }
                if covers(post, st) && cfg.status_labels@[i as int].status != st {
                    let w = choose|k: int| 0 <= k < post.len() && post[k].status == st;
                    assert(pre[w] == post[w]);
                }
            }
        }
        match rule.status {
            Status::Ongoing => {
                covered_ongoing = true;
            },
            Status::Completed => {
                covered_completed = true;
            },
            Status::Cancelled => {
                covered_cancelled = true;
            },
            Status::Hiatus => {
                covered_hiatus = true;
            },
            Status::Unknown => {},
        }
        i = i + 1;
    }
    proof {
        assert(cfg.status_labels@.subrange(0, nl as int) =~= cfg.status_labels@);
    }
    if !(covered_ongoing && covered_completed && covered_cancelled && covered_hiatus) {
        return false;
    }
    let nv: usize = cfg.row_vocabulary.len();
    let mut j: usize = 0;
    while j < nv
        invariant
            nv == cfg.row_vocabulary@.len(),
            j <= nv,
            forall|k: int|
                0 <= k < j ==> (#[trigger] cfg.row_vocabulary@[k]).label@.len() > 0,
        decreases nv - j,
    {
        if cfg.row_vocabulary[j].label.as_str().unicode_len() == 0 {
            proof {
                assert(cfg.row_vocabulary@[j as int].label@.len() == 0);
            }
            return false;
        }
        j = j + 1;
    }
    true
}

/// Status for `text` under the translation table: the status of the first
/// case-insensitive match, `Unknown` when nothing matches.
pub open spec fn spec_classify_status(labels: Seq<StatusRule>, text: Seq<char>) -> Status
    decreases labels.len(),
{
    if labels.len() == 0 {
        Status::Unknown
    } else if seq_eq_ci(labels[0].label@, text) {
        labels[0].status
    } else {
        spec_classify_status(labels.subrange(1, labels.len() as int), text)
    }
}

/// Unmatched text classifies as `Unknown`, never anything else.
pub proof fn lemma_classify_unmatched(labels: Seq<StatusRule>, text: Seq<char>)
    requires
        forall|i: int| 0 <= i < labels.len() ==> !seq_eq_ci((#[trigger] labels[i]).label@, text),
    ensures
        spec_classify_status(labels, text) == Status::Unknown,
    decreases labels.len(),
{
    if labels.len() > 0 {
        lemma_classify_unmatched(labels.subrange(1, labels.len() as int), text);
    }
}

/// A matching translation row decides the status: the table is consulted in
/// order and the first case-insensitive match wins.
pub proof fn lemma_classify_first_match(labels: Seq<StatusRule>, text: Seq<char>, i: int)
    requires
        0 <= i < labels.len(),
        seq_eq_ci(labels[i].label@, text),
        forall|j: int| 0 <= j < i ==> !seq_eq_ci((#[trigger] labels[j]).label@, text),
    ensures
        spec_classify_status(labels, text) == labels[i].status,
    decreases labels.len(),
{
    if i > 0 {
        lemma_classify_first_match(labels.subrange(1, labels.len() as int), text, i - 1);
    }
}

/// Classify status text against the translation table. Total: any text that
/// matches no translation comes back as `Unknown`.
pub fn classify_status(labels: &Vec<StatusRule>, text: &str) -> (r: Status)
    ensures
        r == spec_classify_status(labels@, text@),
{
    let n: usize = labels.len();
    proof {
        assert(labels@.subrange(0, n as int) =~= labels@);
    }
    let mut i: usize = 0;
    while i < n
        invariant
            n == labels@.len(),
            i <= n,
            spec_classify_status(labels@, text@) == spec_classify_status(
                labels@.subrange(i as int, n as int),
                text@,
            ),
        decreases n - i,
    {
        proof {
            let part = labels@.subrange(i as int, n as int);
            assert(part.subrange(1, part.len() as int) =~= labels@.subrange(i + 1, n as int));
            assert(part[0] == labels@[i as int]);
        }
        if str_eq_ci(labels[i].label.as_str(), text) {
            return labels[i].status;
        }
        i = i + 1;
    }
    Status::Unknown
}

/// Some tag matches some adult marker, case-insensitively.
pub open spec fn has_adult_tag(markers: Seq<String>, tags: Seq<String>) -> bool {
    exists|i: int, j: int|
        0 <= i < markers.len() && 0 <= j < tags.len() && seq_eq_ci(markers[i]@, tags[j]@)
}

/// The default category rule: permissive unless a tag matches one of the
/// configured adult markers; the reading direction is the site's default.
pub fn classify_category(cfg: &SiteConfig, tags: &Vec<String>) -> (r: (ContentRating, Direction))
    ensures
        r.0 == if has_adult_tag(cfg.adult_markers@, tags@) {
            ContentRating::Adult
        } else {
            ContentRating::Safe
        },
        r.1 == cfg.default_direction,
{
    let nm: usize = cfg.adult_markers.len();
    let nt: usize = tags.len();
    let mut i: usize = 0;
    while i < nm
        invariant
            nm == cfg.adult_markers@.len(),
            nt == tags@.len(),
            i <= nm,
            forall|a: int, b: int|
                0 <= a < i && 0 <= b < nt ==> !seq_eq_ci(
                    (#[trigger] cfg.adult_markers@[a])@,
                    (#[trigger] tags@[b])@,
                ),
        decreases nm - i,
    {
        let mut j: usize = 0;
        while j < nt
            invariant
                nm == cfg.adult_markers@.len(),
                nt == tags@.len(),
                i < nm,
                j <= nt,
                forall|a: int, b: int|
                    0 <= a < i && 0 <= b < nt ==> !seq_eq_ci(
                        (#[trigger] cfg.adult_markers@[a])@,
                        (#[trigger] tags@[b])@,
                    ),
                forall|b: int| 0 <= b < j ==> !seq_eq_ci(cfg.adult_markers@[i as int]@, (#[trigger] tags@[b])@),
            decreases nt - j,
        {
            if str_eq_ci(cfg.adult_markers[i].as_str(), tags[j].as_str()) {
                return (ContentRating::Adult, cfg.default_direction);
            }
            j = j + 1;
        }
        i = i + 1;
    }
    (ContentRating::Safe, cfg.default_direction)
}

} // verus!
