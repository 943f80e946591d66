//! The normalized domain entities the engine produces.

use vstd::prelude::*;

verus! {

/// Publication status of a catalog item.
#[derive(Clone, Copy, PartialEq, Eq, Structural, Debug)]
pub enum Status {
    Ongoing,
    Completed,
    Cancelled,
    Hiatus,
    Unknown,
}

/// Content rating of a catalog item.
#[derive(Clone, Copy, PartialEq, Eq, Structural, Debug)]
pub enum ContentRating {
    Safe,
    Suggestive,
    Adult,
}

/// Reading-direction hint for the host's viewer.
#[derive(Clone, Copy, PartialEq, Eq, Structural, Debug)]
pub enum Direction {
    LeftToRight,
    RightToLeft,
    Scroll,
}

/// One catalog entry as a listing shows it.
#[derive(Clone, Debug)]
pub struct ItemSummary {
    pub id: String,
    pub title: String,
    pub cover: String,
}

/// One page of a catalog listing plus the has-more flag.
#[derive(Clone, Debug)]
pub struct ListingPage {
    pub items: Vec<ItemSummary>,
    pub has_more: bool,
}

/// A fully populated catalog item.
#[derive(Clone, Debug)]
pub struct ItemDetail {
    pub id: String,
    pub title: String,
    pub cover: String,
    pub description: String,
    pub author: String,
    pub artist: String,
    pub categories: Vec<String>,
    pub status: Status,
    pub rating: ContentRating,
    pub direction: Direction,
    pub url: String,
}

/// One chapter of an item, in document order.
#[derive(Clone, Debug)]
pub struct ChapterEntry {
    pub id: String,
    pub title: String,
    pub ordinal: usize,
    pub url: String,
}

/// One reading page of a chapter.
#[derive(Clone, Debug)]
pub struct ReadingPage {
    pub index: usize,
    pub url: String,
}

/// What a raw site URL resolves to.
#[derive(Clone, Debug)]
pub struct DeepLink {
    pub item_id: String,
    pub chapter_id: Option<String>,
}

/// The terminal failures an operation can surface.
#[derive(Clone, Copy, PartialEq, Eq, Structural, Debug)]
pub enum EngineError {
    /// The fetch capability failed to deliver the document's bytes.
    Transport,
    /// The bytes could not be turned into a queryable document.
    Parse,
    /// No known URL shape matched.
    UnresolvedUrl,
}

/// A listing filter chosen by the host's user.
#[derive(Clone, Debug)]
pub enum Filter {
    /// Free-text search.
    Search(String),
    /// Restrict the listing to one tag or category.
    Tag(String),
}

} // verus!
