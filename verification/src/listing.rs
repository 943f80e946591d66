//! The listing extractor: catalog pages into summary entities plus the
//! has-more flag.

use vstd::prelude::*;

use crate::config::{MorePolicy, SiteConfig};
use crate::docs::{CatalogDocument, ItemCard};
use crate::entities::{ItemSummary, ListingPage};
use crate::text::strip_suffix_all;
use crate::text::strip_suffix_repeat;
use crate::urls::{id_from_href, spec_id_from_href};

verus! {

/// What one item card yields: identifier from the link target, title with
/// the locale suffix stripped, cover as shown.
pub struct SummaryView {
    pub id: Seq<char>,
    pub title: Seq<char>,
    pub cover: Seq<char>,
}

/// The summary one card yields.
pub open spec fn summary_of(cfg: SiteConfig, card: ItemCard) -> SummaryView {
    SummaryView {
        id: spec_id_from_href(cfg, card.href@),
        title: strip_suffix_all(card.title@, cfg.locale_suffix@),
        cover: card.cover@,
    }
}

/// The summaries a catalog page yields, in document order; cards whose
/// identifier or title comes out empty are dropped, not delivered half-made.
pub open spec fn spec_catalog_items(cfg: SiteConfig, cards: Seq<ItemCard>) -> Seq<SummaryView>
    decreases cards.len(),
{
    if cards.len() == 0 {
        Seq::empty()
    } else {
        let rest = spec_catalog_items(cfg, cards.drop_last());
        let s = summary_of(cfg, cards.last());
        if s.id.len() > 0 && s.title.len() > 0 {
            rest.push(s)
        } else {
            rest
        }
    }
}

/// Every delivered summary has a non-empty identifier and title.
pub proof fn lemma_catalog_items_nonempty(cfg: SiteConfig, cards: Seq<ItemCard>)
    ensures
        forall|i: int|
            0 <= i < spec_catalog_items(cfg, cards).len() ==> {
                &&& (#[trigger] spec_catalog_items(cfg, cards)[i]).id.len() > 0
                &&& spec_catalog_items(cfg, cards)[i].title.len() > 0
            },
    decreases cards.len(),
{
    if cards.len() > 0 {
        lemma_catalog_items_nonempty(cfg, cards.drop_last());
        let rest = spec_catalog_items(cfg, cards.drop_last());
        let s = summary_of(cfg, cards.last());
        if s.id.len() > 0 && s.title.len() > 0 {
            assert(spec_catalog_items(cfg, cards) == rest.push(s));
            assert forall|i: int| 0 <= i < spec_catalog_items(cfg, cards).len() implies {
                &&& (#[trigger] spec_catalog_items(cfg, cards)[i]).id.len() > 0
                &&& spec_catalog_items(cfg, cards)[i].title.len() > 0
            } by {
                if i < rest.len() {
                    assert(spec_catalog_items(cfg, cards)[i] == rest[i]);
                } else {
                    assert(spec_catalog_items(cfg, cards)[i] == s);
                }
            }
        }
    }
}

/// The views of the delivered summaries.
pub open spec fn summaries_view(items: Seq<ItemSummary>) -> Seq<SummaryView> {
    items.map_values(|it: ItemSummary| SummaryView { id: it.id@, title: it.title@, cover: it.cover@ })
}

/// The has-more decision for a page that delivered `n` summaries: by the
/// site family's policy, and never on an empty page.
pub open spec fn spec_has_more(cfg: SiteConfig, doc: CatalogDocument, n: nat) -> bool {
    n > 0 && (match cfg.more_policy {
        MorePolicy::NextLink => doc.has_next_link,
        MorePolicy::FullPage(k) => n == k,
    })
}

/// Turn a catalog page into summaries plus the has-more flag.
///
/// Delivered summaries carry a non-empty identifier and a non-empty title;
/// an empty page never claims that more pages follow.
pub fn list_from_document(cfg: &SiteConfig, doc: &CatalogDocument) -> (r: ListingPage)
    requires
        cfg.wf(),
    ensures
        summaries_view(r.items@) == spec_catalog_items(*cfg, doc.cards@),
        r.has_more == spec_has_more(*cfg, *doc, r.items@.len() as nat),
        forall|i: int|
            0 <= i < r.items@.len() ==> {
                &&& (#[trigger] r.items@[i]).id@.len() > 0
                &&& r.items@[i].title@.len() > 0
            },
        r.items@.len() == 0 ==> !r.has_more,
{
    let n: usize = doc.cards.len();
    let mut items: Vec<ItemSummary> = Vec::new();
    let mut i: usize = 0;
    while i < n
        invariant
            n == doc.cards@.len(),
            i <= n,
            summaries_view(items@) == spec_catalog_items(*cfg, doc.cards@.subrange(0, i as int)),
            forall|j: int|
                0 <= j < items@.len() ==> {
                    &&& (#[trigger] items@[j]).id@.len() > 0
                    &&& items@[j].title@.len() > 0
                },
        decreases n - i,
    {
        let card = &doc.cards[i];
        let id = id_from_href(cfg, card.href.as_str());
        let title = strip_suffix_repeat(card.title.as_str(), cfg.locale_suffix.as_str());
        let id_len = id.as_str().unicode_len();
        let title_len = title.as_str().unicode_len();
        proof {
            assert(doc.cards@.subrange(0, i + 1).drop_last() =~= doc.cards@.subrange(0, i as int));
            assert(doc.cards@.subrange(0, i + 1).last() == doc.cards@[i as int]);
        }
        if id_len > 0 && title_len > 0 {
            let cover = card.cover.clone();
            items.push(ItemSummary { id, title, cover });
            proof {
                assert(summaries_view(items@) =~= spec_catalog_items(
                    *cfg,
                    doc.cards@.subrange(0, i + 1),
                ));
            }
        } else {
            proof {
                assert(summaries_view(items@) =~= spec_catalog_items(
                    *cfg,
                    doc.cards@.subrange(0, i + 1),
                ));
            }
        }
        i = i + 1;
    }
    proof {
        assert(doc.cards@.subrange(0, n as int) =~= doc.cards@);
    }
    let count: usize = items.len();
    let has_more: bool = if count == 0 {
        false
    } else {
        match cfg.more_policy {
            MorePolicy::NextLink => doc.has_next_link,
            MorePolicy::FullPage(k) => count == k,
        }
    };
    ListingPage { items, has_more }
}

} // verus!
