//! The feed repository's own logic: sanitising remote text before it reaches `text`
//! columns, the public source search patterns, and the adoption of polled entries.

use vstd::prelude::*;
use crate::codecs::{FeedSearchSurface, surface_text, surface_to_str};
use crate::sql::Timestamp;
use crate::text::{concat3, escape_like_pattern, like_escaped, push_char, starts_with, trim, trimmed};

verus! {

/// The text with every NUL character removed; all other characters keep their order.
pub open spec fn without_nul(s: Seq<char>) -> Seq<char>
    decreases s.len(),
{
    if s.len() == 0 {
        Seq::empty()
    } else if s.last() == '\0' {
        without_nul(s.drop_last())
    } else {
        without_nul(s.drop_last()).push(s.last())
    }
}

/// The optional text with NUL removed.
pub open spec fn opt_without_nul(o: Option<String>) -> Option<Seq<char>> {
    match o {
        Some(s) => Some(without_nul(s@)),
        None => None,
    }
}

/// The texts of an optional string.
pub open spec fn opt_text(o: Option<String>) -> Option<Seq<char>> {
    match o {
        Some(s) => Some(s@),
        None => None,
    }
}

/// Removes the NUL characters a mis-decoded feed can carry, which Postgres `text` rejects.
pub fn strip_nul(s: &str) -> (r: String)
    ensures
        r@ == without_nul(s@),
{
    let mut r = String::new();
    for ch in it: s.chars()
        invariant
            it.seq() == s@,
            r@ == without_nul(s@.take(it.index())),
    {
        assert(s@.take(it.index() + 1).drop_last() == s@.take(it.index()));
        if ch != '\0' {
            push_char(&mut r, ch);
        }
    }
    assert(s@.take(s@.len() as int) == s@);
    r
}

/// [`strip_nul`] over an optional text.
pub fn strip_nul_opt(o: &Option<String>) -> (r: Option<String>)
    ensures
        opt_text(r) == opt_without_nul(*o),
{
    match o {
        Some(s) => Some(strip_nul(s.as_str())),
        None => None,
    }
}

/// The texts of a feed source that arrive from the network.
pub struct FeedSourceText {
    pub canonical_key: String,
    pub source_url: String,
    pub poll_url: String,
    pub title: String,
    pub description: Option<String>,
    pub site_url: Option<String>,
    pub image_url: Option<String>,
    pub domain: Option<String>,
    pub last_etag: Option<String>,
    pub last_modified: Option<String>,
    pub last_error: Option<String>,
}

/// Strips NUL from every remote text of a feed source.
pub fn strip_nul_from_source_text(source: &mut FeedSourceText)
    ensures
        final(source).canonical_key@ == without_nul(old(source).canonical_key@),
        final(source).source_url@ == without_nul(old(source).source_url@),
        final(source).poll_url@ == without_nul(old(source).poll_url@),
        final(source).title@ == without_nul(old(source).title@),
        opt_text(final(source).description) == opt_without_nul(old(source).description),
        opt_text(final(source).site_url) == opt_without_nul(old(source).site_url),
        opt_text(final(source).image_url) == opt_without_nul(old(source).image_url),
        opt_text(final(source).domain) == opt_without_nul(old(source).domain),
        opt_text(final(source).last_etag) == opt_without_nul(old(source).last_etag),
        opt_text(final(source).last_modified) == opt_without_nul(old(source).last_modified),
        opt_text(final(source).last_error) == opt_without_nul(old(source).last_error),
{
    source.canonical_key = strip_nul(source.canonical_key.as_str());
    source.source_url = strip_nul(source.source_url.as_str());
    source.poll_url = strip_nul(source.poll_url.as_str());
    source.title = strip_nul(source.title.as_str());
    source.description = strip_nul_opt(&source.description);
    source.site_url = strip_nul_opt(&source.site_url);
    source.image_url = strip_nul_opt(&source.image_url);
    source.domain = strip_nul_opt(&source.domain);
    source.last_etag = strip_nul_opt(&source.last_etag);
    source.last_modified = strip_nul_opt(&source.last_modified);
    source.last_error = strip_nul_opt(&source.last_error);
}

/// The remote texts a poll writes back: the HTTP validators and the error.
pub struct PollOutcomeText {
    pub last_etag: Option<String>,
    pub last_modified: Option<String>,
    pub last_error: Option<String>,
}

/// Strips NUL from the remote texts of a poll outcome.
pub fn strip_nul_from_poll_outcome(state: &mut PollOutcomeText)
    ensures
        opt_text(final(state).last_etag) == opt_without_nul(old(state).last_etag),
        opt_text(final(state).last_modified) == opt_without_nul(old(state).last_modified),
        opt_text(final(state).last_error) == opt_without_nul(old(state).last_error),
{
    state.last_etag = strip_nul_opt(&state.last_etag);
    state.last_modified = strip_nul_opt(&state.last_modified);
    state.last_error = strip_nul_opt(&state.last_error);
}

/// The remote texts a refresh of a source's details writes.
pub struct SourceDetailsText {
    pub poll_url: String,
    pub title: String,
    pub description: Option<String>,
    pub site_url: Option<String>,
    pub image_url: Option<String>,
    pub domain: Option<String>,
}

/// Strips NUL from the remote texts of a details refresh.
pub fn strip_nul_from_source_details(details: &mut SourceDetailsText)
    ensures
        final(details).poll_url@ == without_nul(old(details).poll_url@),
        final(details).title@ == without_nul(old(details).title@),
        opt_text(final(details).description) == opt_without_nul(old(details).description),
        opt_text(final(details).site_url) == opt_without_nul(old(details).site_url),
        opt_text(final(details).image_url) == opt_without_nul(old(details).image_url),
        opt_text(final(details).domain) == opt_without_nul(old(details).domain),
{
    details.poll_url = strip_nul(details.poll_url.as_str());
    details.title = strip_nul(details.title.as_str());
    details.description = strip_nul_opt(&details.description);
    details.site_url = strip_nul_opt(&details.site_url);
    details.image_url = strip_nul_opt(&details.image_url);
    details.domain = strip_nul_opt(&details.domain);
}

/// A stripped text holds no NUL, and stripping it again changes nothing.
pub proof fn lemma_without_nul_clean(s: Seq<char>)
    ensures
        !without_nul(s).contains('\0'),
        without_nul(without_nul(s)) == without_nul(s),
    decreases s.len(),
{
    if s.len() > 0 {
        lemma_without_nul_clean(s.drop_last());
        let w = without_nul(s.drop_last());
        if s.last() != '\0' {
            assert(w.push(s.last()).drop_last() =~= w);
            assert forall|i: int| 0 <= i < w.push(s.last()).len() implies w.push(s.last())[i] != '\0' by {
                if i < w.len() {
                    assert(w.push(s.last())[i] == w[i]);
                }
            }
        }
    }
}

/// Stripping deletes exactly the NUL characters and keeps every other character, in order:
/// the result is the text filtered by "is not NUL"; a text without NUL comes back unchanged;
/// and stripping two texts one after the other is stripping their concatenation.
pub proof fn lemma_without_nul_deletes_only_nul(s: Seq<char>, t: Seq<char>)
    ensures
        without_nul(s) == s.filter(|c: char| c != '\0'),
        (forall|i: int| 0 <= i < s.len() ==> s[i] != '\0') ==> without_nul(s) == s,
        without_nul(s + t) == without_nul(s) + without_nul(t),
    decreases s.len() + t.len(),
{
    reveal(Seq::filter);
    if s.len() > 0 {
        lemma_without_nul_deletes_only_nul(s.drop_last(), Seq::empty());
        if forall|i: int| 0 <= i < s.len() ==> s[i] != '\0' {
            assert forall|i: int| 0 <= i < s.drop_last().len() implies s.drop_last()[i] != '\0' by {
                assert(s.drop_last()[i] == s[i]);
            }
            assert(s[s.len() - 1] != '\0');
            assert(s.drop_last().push(s.last()) =~= s);
        }
    }
    if t.len() > 0 {
        lemma_without_nul_deletes_only_nul(s, t.drop_last());
        assert((s + t).drop_last() =~= s + t.drop_last());
        assert((s + t).last() == t.last());
        if t.last() != '\0' {
            assert(without_nul(s) + without_nul(t.drop_last()).push(t.last())
                =~= (without_nul(s) + without_nul(t.drop_last())).push(t.last()));
        }
    } else {
        assert(s + t =~= s);
        assert(without_nul(s) + without_nul(t) =~= without_nul(s));
    }
}

/// Escapes the LIKE wildcards of a search text (the same escaping as the Library filters).
pub fn escape_like(value: &str) -> (r: String)
    ensures
        r@ == like_escaped(value@),
{
    escape_like_pattern(value)
}

/// The parameters of a public source search.
pub struct SourceSearchPatterns {
    /// The query without surrounding whitespace, compared whole with titles.
    pub query: String,
    /// `%`, the escaped query, `%`: a match anywhere.
    pub contains: String,
    /// The escaped query, then `%`: a match at the start.
    pub prefix: String,
    /// The surface code.
    pub surface: &'static str,
}

/// The parameters of a public source search, from the raw query and the surface.
pub fn public_source_search_patterns(query: &str, surface: FeedSearchSurface) -> (p: SourceSearchPatterns)
    ensures
        p.query@ == trimmed(query@),
        p.contains@ == "%"@ + like_escaped(trimmed(query@)) + "%"@,
        p.prefix@ == like_escaped(trimmed(query@)) + "%"@,
        p.surface@ == surface_text(surface),
{
    let q = trim(query);
    let escaped = escape_like(q.as_str());
    let contains = concat3("%", escaped.as_str(), "%");
    let prefix = concat3("", escaped.as_str(), "%");
    proof {
        assert(""@ + escaped@ =~= escaped@) by {
            reveal_strlit("");
        }
    }
    SourceSearchPatterns { query: q, contains, prefix, surface: surface_to_str(surface) }
}

/// The guid prefix of entries derived from content rather than a published guid.
pub open spec fn content_guid_prefix() -> Seq<char> {
    "entry-content-"@
}

/// The next step of storing a polled entry.
#[derive(Clone, Copy, Debug, PartialEq, Eq, Structural)]
pub enum PolledEntryStep {
    /// An entry with the same source and guid exists: it is returned unchanged.
    ReturnExisting,
    /// Look for an entry of the same content under a published guid; one found is adopted
    /// (see [`adopt_polled_fields`]), otherwise the polled entry is inserted.
    SearchAdoptable,
    /// The entry is inserted.
    Insert,
}

/// The step after the exact guid lookup: only content-derived guids look for an entry to adopt.
pub open spec fn after_exact_spec(exact_found: bool, guid: Seq<char>) -> PolledEntryStep {
    if exact_found {
        PolledEntryStep::ReturnExisting
    } else if content_guid_prefix().is_prefix_of(guid) {
        PolledEntryStep::SearchAdoptable
    } else {
        PolledEntryStep::Insert
    }
}

/// Decides what follows the exact guid lookup of a polled entry.
pub fn after_exact_lookup(exact_found: bool, guid: &str) -> (s: PolledEntryStep)
    ensures
        s == after_exact_spec(exact_found, guid@),
{
    if exact_found {
        PolledEntryStep::ReturnExisting
    } else if starts_with(guid, "entry-content-") {
        PolledEntryStep::SearchAdoptable
    } else {
        PolledEntryStep::Insert
    }
}

/// The source entries that have a URL, with it, in order.
pub open spec fn entries_with_url_spec(rows: Seq<(u128, Option<String>)>) -> Seq<(u128, Seq<char>)>
    decreases rows.len(),
{
    if rows.len() == 0 {
        Seq::empty()
    } else {
        let rest = entries_with_url_spec(rows.drop_last());
        match rows.last().1 {
            Some(u) => rest.push((rows.last().0, u@)),
            None => rest,
        }
    }
}

/// Keeps the entries that have a URL, paired with it.
pub fn entries_with_url(rows: Vec<(u128, Option<String>)>) -> (r: Vec<(u128, String)>)
    ensures
        r@.map_values(|p: (u128, String)| (p.0, p.1@)) == entries_with_url_spec(rows@),
{
    let mut r: Vec<(u128, String)> = Vec::new();
    let mut i: usize = 0;
    assert(rows@.take(0) =~= Seq::<(u128, Option<String>)>::empty());
    while i < rows.len()
        invariant
            i <= rows@.len(),
            r@.map_values(|p: (u128, String)| (p.0, p.1@)) == entries_with_url_spec(rows@.take(i as int)),
        decreases rows@.len() - i,
    {
        assert(rows@.take(i + 1).drop_last() =~= rows@.take(i as int));
        let row = &rows[i];
        match &row.1 {
            Some(url) => {
                let ghost before = r@;
                r.push((row.0, url.clone()));
                assert(r@.map_values(|p: (u128, String)| (p.0, p.1@)) =~= before.map_values(
                    |p: (u128, String)| (p.0, p.1@),
                ).push((row.0, url@)));
            },
            None => {},
        }
        i = i + 1;
    }
    assert(rows@.take(rows@.len() as int) =~= rows@);
    r
}


/// The fields of a stored source entry that adopting a polled entry rewrites.
pub struct AdoptionFields {
    pub guid: String,
    pub canonical_url: Option<String>,
    pub lead_image_url: Option<String>,
    pub language: Option<String>,
    pub published_at: Option<Timestamp>,
}

/// Adopts an entry stored under a published guid for a polled content-derived one: the
/// stored entry takes the polled guid and publication time, keeps its canonical URL and
/// language where it has them (else takes the polled ones), and takes the polled lead image
/// where the poll has one (else keeps its own).
pub fn adopt_polled_fields(stored: AdoptionFields, polled: AdoptionFields) -> (r: AdoptionFields)
    ensures
        r.guid == polled.guid,
        r.canonical_url == (if stored.canonical_url is Some { stored.canonical_url } else { polled.canonical_url }),
        r.lead_image_url == (if polled.lead_image_url is Some { polled.lead_image_url } else { stored.lead_image_url }),
        r.language == (if stored.language is Some { stored.language } else { polled.language }),
        r.published_at == polled.published_at,
{
    let canonical_url = match stored.canonical_url {
        Some(u) => Some(u),
        None => polled.canonical_url,
    };
    let lead_image_url = match polled.lead_image_url {
        Some(u) => Some(u),
        None => stored.lead_image_url,
    };
    let language = match stored.language {
        Some(l) => Some(l),
        None => polled.language,
    };
    AdoptionFields { guid: polled.guid, canonical_url, lead_image_url, language, published_at: polled.published_at }
}

} // verus!
