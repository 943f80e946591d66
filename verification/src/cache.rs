//! Single-slot memoized store of the last fetched detail page.
//!
//! The slot is keyed by the URL that produced the document. A sequence of
//! extraction steps over the same URL fetches once; asking for a different
//! URL invalidates the slot. A failed fetch never reaches `store`, so the
//! slot is left as it was — stale or empty, never partial. The cache is
//! instance-scoped: the host must serialize calls into one adapter
//! instance, or give each call its own cache.

use vstd::prelude::*;

use crate::docs::DetailDocument;

verus! {

/// At most one fetched detail document, with the URL it came from.
pub struct PageCache {
    slot: Option<(String, DetailDocument)>,
}

impl PageCache {
    /// The slot holds a document fetched from `url`.
    pub closed spec fn holds(self, url: Seq<char>) -> bool {
        match self.slot {
            Some(p) => p.0@ == url,
            None => false,
        }
    }

    /// The stored document, meaningful only while some URL is held.
    pub closed spec fn stored_doc(self) -> DetailDocument {
        self.slot->Some_0.1
    }

    /// An empty cache, holding no URL at all.
    pub fn new() -> (r: PageCache)
        ensures
            forall|u: Seq<char>| !r.holds(u),
    {
        PageCache { slot: None }
    }

    /// Whether serving `url` needs a fetch: true exactly when the slot does
    /// not hold this URL.
    pub fn needs_fetch(&self, url: &String) -> (r: bool)
        ensures
            r == !self.holds(url@),
    {
        match &self.slot {
            Some(p) => !p.0.eq(url),
            None => true,
        }
    }

    /// Put the document fetched from `url` into the slot, displacing
    /// whatever was held before.
    pub fn store(&mut self, url: String, doc: DetailDocument)
        ensures
            final(self).holds(url@),
            final(self).stored_doc() == doc,
            forall|u: Seq<char>| u != url@ ==> !final(self).holds(u),
    {
        self.slot = Some((url, doc));
    }

    /// Read the document for `url` out of the slot; nothing comes back when
    /// the slot holds a different URL or none.
    pub fn get<'a>(&'a self, url: &String) -> (r: Option<&'a DetailDocument>)
        ensures
            match r {
                Some(d) => self.holds(url@) && *d == self.stored_doc(),
                None => !self.holds(url@),
            },
    {
        match &self.slot {
            Some(p) => {
                if p.0.eq(url) {
                    Some(&p.1)
                } else {
                    None
                }
            },
            None => None,
        }
    }
}

/// The slot is single: while one URL is held, every other URL misses and
/// would be fetched anew.
pub proof fn lemma_cache_single_slot(c: PageCache, held: Seq<char>, other: Seq<char>)
    requires
        c.holds(held),
        held != other,
    ensures
        !c.holds(other),
{
}

} // verus!
