//! The chapter and reading-page extractors. Both keep the document's own
//! order: site convention decides whether that is newest-first, and the
//! engine does not re-sort.

use vstd::prelude::*;

use crate::config::SiteConfig;
use crate::docs::{ChapterDocument, PageDocument};
use crate::entities::{ChapterEntry, ReadingPage};
use crate::text::after_first_sep;
use crate::urls::{chapter_id_from_href, spec_chapter_id_from_href};

verus! {

/// Turn a chapter index into chapter entities, in document order.
///
/// Each entry keeps its link as source URL, derives its identifier from
/// the link target, takes its position as ordinal, and loses a known
/// number-prefix before the configured separator; a title without the
/// separator stays whole.
pub fn chapters_from_document(cfg: &SiteConfig, doc: &ChapterDocument) -> (r: Vec<ChapterEntry>)
    requires
        cfg.wf(),
    ensures
        r@.len() == doc.entries@.len(),
        forall|i: int|
            0 <= i < r@.len() ==> {
                &&& (#[trigger] r@[i]).id@ == spec_chapter_id_from_href(*cfg, doc.entries@[i].href@)
                &&& r@[i].title@ == after_first_sep(doc.entries@[i].title@, cfg.chapter_separator@)
                &&& r@[i].ordinal == i
                &&& r@[i].url@ == doc.entries@[i].href@
            },
{
    let n: usize = doc.entries.len();
    let mut out: Vec<ChapterEntry> = Vec::new();
    let mut i: usize = 0;
    while i < n
        invariant
            n == doc.entries@.len(),
            i <= n,
            out@.len() == i,
            forall|j: int|
                0 <= j < i ==> {
                    &&& (#[trigger] out@[j]).id@ == spec_chapter_id_from_href(
                        *cfg,
                        doc.entries@[j].href@,
                    )
                    &&& out@[j].title@ == after_first_sep(
                        doc.entries@[j].title@,
                        cfg.chapter_separator@,
                    )
                    &&& out@[j].ordinal == j
                    &&& out@[j].url@ == doc.entries@[j].href@
                },
        decreases n - i,
    {
        let entry = &doc.entries[i];
        let id = chapter_id_from_href(cfg, entry.href.as_str());
        let title = crate::text::strip_through_separator(
            entry.title.as_str(),
            cfg.chapter_separator.as_str(),
        );
        out.push(ChapterEntry { id, title, ordinal: i, url: entry.href.clone() });
        i = i + 1;
    }
    out
}

/// Turn a reading-page document into ordered reading pages: one per image
/// source, ordinal equal to its position, starting at zero.
pub fn pages_from_document(doc: &PageDocument) -> (r: Vec<ReadingPage>)
    ensures
        r@.len() == doc.image_urls@.len(),
        forall|i: int|
            0 <= i < r@.len() ==> {
                &&& (#[trigger] r@[i]).index == i
                &&& r@[i].url@ == doc.image_urls@[i]@
            },
{
    let n: usize = doc.image_urls.len();
    let mut out: Vec<ReadingPage> = Vec::new();
    let mut i: usize = 0;
    while i < n
        invariant
            n == doc.image_urls@.len(),
            i <= n,
            out@.len() == i,
            forall|j: int|
                0 <= j < i ==> {
                    &&& (#[trigger] out@[j]).index == j
                    &&& out@[j].url@ == doc.image_urls@[j]@
                },
        decreases n - i,
    {
        out.push(ReadingPage { index: i, url: doc.image_urls[i].clone() });
        i = i + 1;
    }
    out
}

/// The extra request headers an image fetch needs: a referer pointing at
/// the site when the site asks for one, nothing otherwise. The engine
/// only names the headers; the host performs the image fetch.
pub fn image_request_headers(cfg: &SiteConfig) -> (r: Vec<(String, String)>)
    ensures
        cfg.referer_for_images ==> r@.len() == 1 && r@[0].0@ == "Referer"@ && r@[0].1@
            == cfg.base_url@ + seq!['/'],
        !cfg.referer_for_images ==> r@.len() == 0,
{
    let mut out: Vec<(String, String)> = Vec::new();
    if cfg.referer_for_images {
        proof {
            reveal_strlit("/");
            assert("/"@ =~= seq!['/']);
        }
        let name: String = "Referer".to_owned();
        let mut value = cfg.base_url.clone();
        value.append("/");
        out.push((name, value));
    }
    out
}

} // verus!
