//! URL construction and URL-to-entity resolution.
//!
//! The engine's URL grammar: item pages live at
//! `{base}/{item_path}/{id}`, chapter pages at
//! `{base}/{item_path}/{item}/{chapter}`, catalog pages at
//! `{base}/{catalog_path}?page={n}` with optional `&s=` and `&tag=` query
//! values, or at the ajax endpoint when the site asks for it.

use vstd::prelude::*;

use crate::config::SiteConfig;
use crate::entities::{DeepLink, EngineError, Filter};
use crate::text::{
    after_first_sep, dec_string, enc_query, encode_query_value, ends_with_spec, find_from,
    find_sub, starts_with_exec, starts_with_spec, strip_suffix_all, strip_suffix_repeat,
    usize_to_dec,
};

verus! {

/// `s` without the prefix `pre` when it carries it, `s` itself otherwise.
pub open spec fn strip_prefix_if(s: Seq<char>, pre: Seq<char>) -> Seq<char> {
    if starts_with_spec(s, pre) {
        s.subrange(pre.len() as int, s.len() as int)
    } else {
        s
    }
}

/// Remove the prefix `pre` from `s` when it carries it.
pub fn strip_prefix_if_exec(s: &str, pre: &str) -> (r: String)
    ensures
        r@ == strip_prefix_if(s@, pre@),
{
    if starts_with_exec(s, pre) {
        s.substring_char(pre.unicode_len(), s.unicode_len()).to_owned()
    } else {
        s.to_owned()
    }
}

/// The identifier an item's link target encodes: the link without the site
/// root, without the item path segment, and without trailing slashes.
pub open spec fn spec_id_from_href(cfg: SiteConfig, href: Seq<char>) -> Seq<char> {
    strip_suffix_all(
        strip_prefix_if(
            strip_prefix_if(strip_prefix_if(href, cfg.base_url@ + seq!['/']), seq!['/']),
            cfg.item_path@ + seq!['/'],
        ),
        seq!['/'],
    )
}

/// Derive an item identifier from a link target, absolute or site-relative.
pub fn id_from_href(cfg: &SiteConfig, href: &str) -> (r: String)
    ensures
        r@ == spec_id_from_href(*cfg, href@),
{
    proof {
        reveal_strlit("/");
        assert("/"@ =~= seq!['/']);
    }
    let mut base_pre = cfg.base_url.clone();
    base_pre.append("/");
    let mut item_pre = cfg.item_path.clone();
    item_pre.append("/");
    let t1 = strip_prefix_if_exec(href, base_pre.as_str());
    let t2 = strip_prefix_if_exec(t1.as_str(), "/");
    let t3 = strip_prefix_if_exec(t2.as_str(), item_pre.as_str());
    strip_suffix_repeat(t3.as_str(), "/")
}

/// Canonical URL of an item's detail page.
pub open spec fn spec_item_url(cfg: SiteConfig, id: Seq<char>) -> Seq<char> {
    cfg.base_url@ + seq!['/'] + cfg.item_path@ + seq!['/'] + id
}

/// Build the canonical detail URL for `id`.
pub fn item_url(cfg: &SiteConfig, id: &str) -> (r: String)
    ensures
        r@ == spec_item_url(*cfg, id@),
{
    proof {
        reveal_strlit("/");
        assert("/"@ =~= seq!['/']);
    }
    let mut u = cfg.base_url.clone();
    u.append("/");
    u.append(cfg.item_path.as_str());
    u.append("/");
    u.append(id);
    proof {
        assert(u@ =~= spec_item_url(*cfg, id@));
    }
    u
}

/// The path segment catalog requests go through.
pub open spec fn spec_catalog_segment(cfg: SiteConfig) -> Seq<char> {
    if cfg.alt_ajax {
        cfg.ajax_path@
    } else {
        cfg.catalog_path@
    }
}

/// The first free-text search value among the filters.
pub open spec fn first_search(filters: Seq<Filter>) -> Option<Seq<char>>
    decreases filters.len(),
{
    if filters.len() == 0 {
        None
    } else if filters[0] matches Filter::Search(s) {
        Some(filters[0]->Search_0@)
    } else {
        first_search(filters.subrange(1, filters.len() as int))
    }
}

/// The first tag restriction among the filters.
pub open spec fn first_tag(filters: Seq<Filter>) -> Option<Seq<char>>
    decreases filters.len(),
{
    if filters.len() == 0 {
        None
    } else if filters[0] matches Filter::Tag(s) {
        Some(filters[0]->Tag_0@)
    } else {
        first_tag(filters.subrange(1, filters.len() as int))
    }
}

/// URL of one catalog page under the given filters.
pub open spec fn spec_catalog_url(cfg: SiteConfig, filters: Seq<Filter>, page: nat) -> Seq<char> {
    cfg.base_url@ + seq!['/'] + spec_catalog_segment(cfg) + seq!['?', 'p', 'a', 'g', 'e', '=']
        + dec_string(page) + (match first_search(filters) {
        Some(s) => seq!['&', 's', '='] + enc_query(s),
        None => Seq::empty(),
    }) + (match first_tag(filters) {
        Some(t) => seq!['&', 't', 'a', 'g', '='] + enc_query(t),
        None => Seq::empty(),
    })
}

/// Find the first free-text search value among the filters.
pub fn find_first_search(filters: &Vec<Filter>) -> (r: Option<String>)
    ensures
        match r {
            Some(s) => first_search(filters@) == Some(s@),
            None => first_search(filters@) is None,
        },
{
    let n: usize = filters.len();
    proof {
        assert(filters@.subrange(0, n as int) =~= filters@);
    }
    let mut i: usize = 0;
    while i < n
        invariant
            n == filters@.len(),
            i <= n,
            first_search(filters@) == first_search(filters@.subrange(i as int, n as int)),
        decreases n - i,
    {
        proof {
            let part = filters@.subrange(i as int, n as int);
            assert(part.subrange(1, part.len() as int) =~= filters@.subrange(i + 1, n as int));
            assert(part[0] == filters@[i as int]);
        }
        match &filters[i] {
            Filter::Search(s) => {
                return Some(s.clone());
            },
            _ => {},
        }
        i = i + 1;
    }
    None
}

/// Find the first tag restriction among the filters.
pub fn find_first_tag(filters: &Vec<Filter>) -> (r: Option<String>)
    ensures
        match r {
            Some(s) => first_tag(filters@) == Some(s@),
            None => first_tag(filters@) is None,
        },
{
    let n: usize = filters.len();
    proof {
        assert(filters@.subrange(0, n as int) =~= filters@);
    }
    let mut i: usize = 0;
    while i < n
        invariant
            n == filters@.len(),
            i <= n,
            first_tag(filters@) == first_tag(filters@.subrange(i as int, n as int)),
        decreases n - i,
    {
        proof {
            let part = filters@.subrange(i as int, n as int);
            assert(part.subrange(1, part.len() as int) =~= filters@.subrange(i + 1, n as int));
            assert(part[0] == filters@[i as int]);
        }
        match &filters[i] {
            Filter::Tag(s) => {
                return Some(s.clone());
            },
            _ => {},
        }
        i = i + 1;
    }
    None
}

/// Build the catalog URL for one page under the given filters.
pub fn catalog_url(cfg: &SiteConfig, filters: &Vec<Filter>, page: usize) -> (r: String)
    ensures
        r@ == spec_catalog_url(*cfg, filters@, page as nat),
{
    proof {
        reveal_strlit("/");
        assert("/"@ =~= seq!['/']);
        reveal_strlit("?page=");
        assert("?page="@ =~= seq!['?', 'p', 'a', 'g', 'e', '=']);
        reveal_strlit("&s=");
        assert("&s="@ =~= seq!['&', 's', '=']);
        reveal_strlit("&tag=");
        assert("&tag="@ =~= seq!['&', 't', 'a', 'g', '=']);
    }
    let mut u = cfg.base_url.clone();
    u.append("/");
    if cfg.alt_ajax {
        u.append(cfg.ajax_path.as_str());
    } else {
        u.append(cfg.catalog_path.as_str());
    }
    u.append("?page=");
    let pagestr = usize_to_dec(page);
    u.append(pagestr.as_str());
    match find_first_search(filters) {
        Some(s) => {
            u.append("&s=");
            let enc = encode_query_value(s.as_str());
            u.append(enc.as_str());
        },
        None => {},
    }
    match find_first_tag(filters) {
        Some(t) => {
            u.append("&tag=");
            let enc = encode_query_value(t.as_str());
            u.append(enc.as_str());
        },
        None => {},
    }
    proof {
        assert(u@ =~= spec_catalog_url(*cfg, filters@, page as nat));
    }
    u
}

/// URL of one page of a named listing, such as a latest or popular view.
pub open spec fn spec_listing_url(cfg: SiteConfig, name: Seq<char>, page: nat) -> Seq<char> {
    cfg.base_url@ + seq!['/'] + cfg.catalog_path@ + seq!['?', 'l', 'i', 's', 't', 'i', 'n', 'g', '=']
        + enc_query(name) + seq!['&', 'p', 'a', 'g', 'e', '='] + dec_string(page)
}

/// Build the URL of one page of a named listing.
pub fn listing_url(cfg: &SiteConfig, name: &str, page: usize) -> (r: String)
    ensures
        r@ == spec_listing_url(*cfg, name@, page as nat),
{
    proof {
        reveal_strlit("/");
        assert("/"@ =~= seq!['/']);
        reveal_strlit("?listing=");
        assert("?listing="@ =~= seq!['?', 'l', 'i', 's', 't', 'i', 'n', 'g', '=']);
        reveal_strlit("&page=");
        assert("&page="@ =~= seq!['&', 'p', 'a', 'g', 'e', '=']);
    }
    let mut u = cfg.base_url.clone();
    u.append("/");
    u.append(cfg.catalog_path.as_str());
    u.append("?listing=");
    let enc = encode_query_value(name);
    u.append(enc.as_str());
    u.append("&page=");
    let pagestr = usize_to_dec(page);
    u.append(pagestr.as_str());
    proof {
        assert(u@ =~= spec_listing_url(*cfg, name@, page as nat));
    }
    u
}

/// What a raw URL resolves to under the engine's URL grammar: the item
/// segment after the item path, and, when one more segment follows, that
/// remainder as the chapter. Trailing slashes are ignored. Resolution is
/// structural only; nothing checks that the entity exists.
pub open spec fn spec_resolve(cfg: SiteConfig, url: Seq<char>) -> Option<
    (Seq<char>, Option<Seq<char>>),
> {
    let pre = cfg.base_url@ + seq!['/'] + cfg.item_path@ + seq!['/'];
    if starts_with_spec(url, pre) {
        let rest = strip_suffix_all(url.subrange(pre.len() as int, url.len() as int), seq!['/']);
        if rest.len() == 0 {
            None
        } else {
            match find_from(rest, seq!['/'], 0) {
                Some(i) => if i == 0 {
                    None
                } else {
                    Some((rest.subrange(0, i), Some(rest.subrange(i + 1, rest.len() as int))))
                },
                None => Some((rest, None)),
            }
        }
    } else {
        None
    }
}

/// Resolve a raw site URL to the entity it refers to. URLs of an unknown
/// shape come back as `UnresolvedUrl`.
pub fn handle_url(cfg: &SiteConfig, url: &str) -> (r: Result<DeepLink, EngineError>)
    ensures
        match spec_resolve(*cfg, url@) {
            Some(p) => {
                &&& r is Ok
                &&& r->Ok_0.item_id@ == p.0
                &&& (match p.1 {
                    Some(c) => r->Ok_0.chapter_id matches Some(cc) && cc@ == c,
                    None => r->Ok_0.chapter_id is None,
                })
            },
            None => r matches Err(e) && e == EngineError::UnresolvedUrl,
        },
{
    proof {
        reveal_strlit("/");
        assert("/"@ =~= seq!['/']);
    }
    let mut pre = cfg.base_url.clone();
    pre.append("/");
    pre.append(cfg.item_path.as_str());
    pre.append("/");
    if !starts_with_exec(url, pre.as_str()) {
        return Err(EngineError::UnresolvedUrl);
    }
    let raw = url.substring_char(pre.unicode_len(), url.unicode_len()).to_owned();
    let rest = strip_suffix_repeat(raw.as_str(), "/");
    let restlen = rest.as_str().unicode_len();
    if restlen == 0 {
        return Err(EngineError::UnresolvedUrl);
    }
    match find_sub(rest.as_str(), "/") {
        Some(i) => {
            proof {
                crate::text::lemma_find_from_in_range(rest@, "/"@, 0);
            }
            if i == 0 {
                Err(EngineError::UnresolvedUrl)
            } else {
                let item = rest.as_str().substring_char(0, i).to_owned();
                let chap = rest.as_str().substring_char(i + 1, restlen).to_owned();
                Ok(DeepLink { item_id: item, chapter_id: Some(chap) })
            }
        },
        None => Ok(DeepLink { item_id: rest, chapter_id: None }),
    }
}

/// A text without any path separator.
pub open spec fn slash_free(s: Seq<char>) -> bool {
    forall|k: int| 0 <= k < s.len() ==> s[k] != '/'
}

/// Resolution inverts construction for items: the canonical detail URL of
/// a plain identifier resolves back to exactly that identifier, with no
/// chapter part.
pub proof fn lemma_resolve_item_url(cfg: SiteConfig, id: Seq<char>)
    requires
        id.len() > 0,
        slash_free(id),
    ensures
        spec_resolve(cfg, spec_item_url(cfg, id)) == Some((id, None::<Seq<char>>)),
{
    let pre = cfg.base_url@ + seq!['/'] + cfg.item_path@ + seq!['/'];
    let url = spec_item_url(cfg, id);
    assert(url =~= pre + id);
    assert(url.subrange(0, pre.len() as int) =~= pre);
    assert(url.subrange(pre.len() as int, url.len() as int) =~= id);
    assert(!ends_with_spec(id, seq!['/'])) by {
        if ends_with_spec(id, seq!['/']) {
            assert(id.subrange(id.len() - 1, id.len() as int)[0] == id[id.len() - 1]);
        }
    }
    assert(strip_suffix_all(id, seq!['/']) == id);
    assert forall|k: int| 0 <= k && k + 1 <= id.len() implies !crate::text::matches_at(
        id,
        seq!['/'],
        k,
    ) by {
        if crate::text::matches_at(id, seq!['/'], k) {
            assert(id.subrange(k, k + 1)[0] == id[k]);
        }
    }
    crate::text::lemma_find_from_none(id, seq!['/'], 0);
}

/// Resolution inverts construction for chapters: a chapter URL built from
/// a plain item identifier and a chapter remainder resolves back to that
/// pair.
pub proof fn lemma_resolve_chapter_url(cfg: SiteConfig, item: Seq<char>, chap: Seq<char>)
    requires
        item.len() > 0,
        slash_free(item),
        chap.len() > 0,
        chap[chap.len() - 1] != '/',
    ensures
        spec_resolve(cfg, spec_item_url(cfg, item) + seq!['/'] + chap) == Some(
            (item, Some(chap)),
        ),
{
    let pre = cfg.base_url@ + seq!['/'] + cfg.item_path@ + seq!['/'];
    let url = spec_item_url(cfg, item) + seq!['/'] + chap;
    let rest = item + seq!['/'] + chap;
    assert(url =~= pre + rest);
    assert(url.subrange(0, pre.len() as int) =~= pre);
    assert(url.subrange(pre.len() as int, url.len() as int) =~= rest);
    assert(!ends_with_spec(rest, seq!['/'])) by {
        if ends_with_spec(rest, seq!['/']) {
            assert(rest.subrange(rest.len() - 1, rest.len() as int)[0] == rest[rest.len() - 1]);
            assert(rest[rest.len() - 1] == chap[chap.len() - 1]);
        }
    }
    assert(strip_suffix_all(rest, seq!['/']) == rest);
    let m = item.len() as int;
    assert(crate::text::matches_at(rest, seq!['/'], m)) by {
        assert(rest.subrange(m, m + 1) =~= seq![rest[m]]);
        assert(rest[m] == '/');
    }
    assert forall|k: int| 0 <= k < m implies !crate::text::matches_at(rest, seq!['/'], k) by {
        if crate::text::matches_at(rest, seq!['/'], k) {
            assert(rest.subrange(k, k + 1)[0] == rest[k]);
            assert(rest[k] == item[k]);
        }
    }
    crate::text::lemma_find_from_at(rest, seq!['/'], 0, m);
    assert(rest.subrange(0, m) =~= item);
    assert(rest.subrange(m + 1, rest.len() as int) =~= chap);
}

/// Identifier derivation inverts construction: deriving an identifier
/// from an item's own canonical URL gives the identifier back, for any
/// item path that does not itself open with a separator.
pub proof fn lemma_id_round_trip(cfg: SiteConfig, id: Seq<char>)
    requires
        cfg.wf(),
        cfg.item_path@[0] != '/',
        id.len() > 0,
        slash_free(id),
    ensures
        spec_id_from_href(cfg, spec_item_url(cfg, id)) == id,
{
    let url = spec_item_url(cfg, id);
    let base_pre = cfg.base_url@ + seq!['/'];
    let item_pre = cfg.item_path@ + seq!['/'];
    assert(url =~= base_pre + (item_pre + id));
    assert(url.subrange(0, base_pre.len() as int) =~= base_pre);
    let t1 = strip_prefix_if(url, base_pre);
    assert(t1 =~= item_pre + id);
    assert(!starts_with_spec(t1, seq!['/'])) by {
        if starts_with_spec(t1, seq!['/']) {
            assert(t1.subrange(0, 1)[0] == t1[0]);
            assert(t1[0] == cfg.item_path@[0]);
        }
    }
    let t2 = strip_prefix_if(t1, seq!['/']);
    assert(t2 == t1);
    assert(t2.subrange(0, item_pre.len() as int) =~= item_pre);
    let t3 = strip_prefix_if(t2, item_pre);
    assert(t3 =~= id);
    assert(!ends_with_spec(id, seq!['/'])) by {
        if ends_with_spec(id, seq!['/']) {
            assert(id.subrange(id.len() - 1, id.len() as int)[0] == id[id.len() - 1]);
        }
    }
    assert(strip_suffix_all(id, seq!['/']) == id);
}

/// The chapter identifier a chapter link encodes: what follows the item
/// segment of the derived identifier; the identifier itself when no further
/// segment follows.
pub open spec fn spec_chapter_id_from_href(cfg: SiteConfig, href: Seq<char>) -> Seq<char> {
    after_first_sep(spec_id_from_href(cfg, href), seq!['/'])
}

/// Derive a chapter identifier from a chapter link target.
pub fn chapter_id_from_href(cfg: &SiteConfig, href: &str) -> (r: String)
    ensures
        r@ == spec_chapter_id_from_href(*cfg, href@),
{
    proof {
        reveal_strlit("/");
        assert("/"@ =~= seq!['/']);
    }
    let id = id_from_href(cfg, href);
    crate::text::strip_through_separator(id.as_str(), "/")
}

} // verus!
