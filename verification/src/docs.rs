//! Plain-value models of the pages the engine reads.
//!
//! Selector evaluation over raw markup is an external capability: the host
//! side queries the fetched document once and hands the results over as the
//! values below, in document order. Every extraction rule of the engine is
//! then a verified function of these values.

use vstd::prelude::*;

verus! {

/// One item card of a catalog page: the link target and what the card shows.
#[derive(Clone, Debug)]
pub struct ItemCard {
    /// Target of the card's link, absolute or site-relative.
    pub href: String,
    /// Title text of the card.
    pub title: String,
    /// Resolved cover image URL.
    pub cover: String,
}

/// A catalog page: its item cards and whether a next-page link is present.
#[derive(Clone, Debug)]
pub struct CatalogDocument {
    pub cards: Vec<ItemCard>,
    pub has_next_link: bool,
}

/// One labeled info row of a detail page, such as an author or status row.
#[derive(Clone, Debug)]
pub struct InfoRow {
    /// Full text of the row, label included.
    pub text: String,
    /// Texts of the row's link elements, in document order.
    pub links: Vec<String>,
    /// Text of the row's status badge, empty when the row has none.
    pub status_label: String,
}

/// A detail page reduced to the values the extraction rules read.
#[derive(Clone, Debug)]
pub struct DetailDocument {
    /// Raw title text, possibly still carrying a locale suffix.
    pub title: String,
    /// Resolved cover image URL.
    pub cover: String,
    /// Description paragraphs in document order.
    pub description_paragraphs: Vec<String>,
    /// Labeled info rows in document order.
    pub rows: Vec<InfoRow>,
    /// Text of a dedicated status element, for site families that keep the
    /// status outside the info rows; empty otherwise.
    pub status_text: String,
    /// Whether the page carries a mature-content warning marker.
    pub mature_marker: bool,
}

/// One chapter link of a chapter index.
#[derive(Clone, Debug)]
pub struct ChapterLink {
    pub href: String,
    pub title: String,
}

/// A chapter index page: its chapter links in document order.
#[derive(Clone, Debug)]
pub struct ChapterDocument {
    pub entries: Vec<ChapterLink>,
}

/// A reading page document: its image sources in document order.
#[derive(Clone, Debug)]
pub struct PageDocument {
    pub image_urls: Vec<String>,
}

} // verus!
