//! A shared extraction engine for template-driven catalog sites.
//!
//! Adapters describe one site (base URL, path segments, label translations,
//! classification rules) as a plain configuration value; the engine turns
//! already-queried page content into normalized entities: catalog listings,
//! item details, chapter and reading-page lists, and deep links resolved
//! from raw URLs. Fetching and HTML querying are external capabilities; the
//! engine works on their results, handed over as plain values.

pub mod cache;
pub mod chapters;
pub mod config;
pub mod details;
pub mod docs;
pub mod entities;
pub mod listing;
pub mod sites;
pub mod text;
pub mod urls;
