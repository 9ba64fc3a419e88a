use ind_persistence::codecs::FeedSearchSurface;
use ind_persistence::sql::Timestamp;
use ind_persistence::feed::{
    adopt_polled_fields, after_exact_lookup, entries_with_url, AdoptionFields, escape_like, public_source_search_patterns, strip_nul, strip_nul_from_poll_outcome,
    strip_nul_from_source_details, strip_nul_from_source_text, strip_nul_opt, FeedSourceText, PolledEntryStep,
    PollOutcomeText, SourceDetailsText,
};

#[test]
fn strip_nul_removes_only_nul() {
    assert_eq!(strip_nul("a\0b\0\0c"), "abc");
    assert_eq!(strip_nul("\0"), "");
    assert_eq!(strip_nul("clean"), "clean");
    assert_eq!(strip_nul(&strip_nul("x\0y")), "xy");
    assert_eq!(strip_nul_opt(&Some("\0t".to_string())), Some("t".to_string()));
    assert_eq!(strip_nul_opt(&None), None);
}

#[test]
fn source_texts_are_sanitised_field_by_field() {
    let mut source = FeedSourceText {
        canonical_key: "k\0".to_string(),
        source_url: "https://a\0".to_string(),
        poll_url: "p".to_string(),
        title: "T\0itle".to_string(),
        description: Some("\0d".to_string()),
        site_url: None,
        image_url: Some("i".to_string()),
        domain: Some("a.com\0".to_string()),
        last_etag: Some("\"e\0\"".to_string()),
        last_modified: None,
        last_error: Some("boom\0".to_string()),
    };
    strip_nul_from_source_text(&mut source);
    assert_eq!(source.canonical_key, "k");
    assert_eq!(source.source_url, "https://a");
    assert_eq!(source.title, "Title");
    assert_eq!(source.description.as_deref(), Some("d"));
    assert_eq!(source.site_url, None);
    assert_eq!(source.domain.as_deref(), Some("a.com"));
    assert_eq!(source.last_etag.as_deref(), Some("\"e\""));
    assert_eq!(source.last_error.as_deref(), Some("boom"));

    let mut poll = PollOutcomeText { last_etag: None, last_modified: Some("M\0on".to_string()), last_error: Some("\0".to_string()) };
    strip_nul_from_poll_outcome(&mut poll);
    assert_eq!(poll.last_modified.as_deref(), Some("Mon"));
    assert_eq!(poll.last_error.as_deref(), Some(""));

    let mut details = SourceDetailsText {
        poll_url: "u\0".to_string(),
        title: "t".to_string(),
        description: None,
        site_url: Some("\0s".to_string()),
        image_url: None,
        domain: None,
    };
    strip_nul_from_source_details(&mut details);
    assert_eq!(details.poll_url, "u");
    assert_eq!(details.site_url.as_deref(), Some("s"));
}

#[test]
fn public_search_patterns() {
    let p = public_source_search_patterns("  100%_off ", FeedSearchSurface::Youtube);
    assert_eq!(p.query, "100%_off");
    assert_eq!(p.contains, "%100\\%\\_off%");
    assert_eq!(p.prefix, "100\\%\\_off%");
    assert_eq!(p.surface, "youtube");
    assert_eq!(escape_like("a\\b"), "a\\\\b");
}

#[test]
fn polled_entries_adopt_only_content_guids() {
    assert_eq!(after_exact_lookup(true, "entry-content-abc"), PolledEntryStep::ReturnExisting);
    assert_eq!(after_exact_lookup(false, "entry-content-abc"), PolledEntryStep::SearchAdoptable);
    assert_eq!(after_exact_lookup(false, "https://example.com/post"), PolledEntryStep::Insert);
}

#[test]
fn entries_without_url_are_skipped() {
    let rows = vec![(1u128, Some("https://a".to_string())), (2, None), (3, Some("https://c".to_string()))];
    assert_eq!(entries_with_url(rows), vec![(1, "https://a".to_string()), (3, "https://c".to_string())]);
}

#[test]
fn adoption_keeps_stored_urls_and_language_and_takes_the_polled_guid() {
    let stored = AdoptionFields {
        guid: "67e55044-10b1-426f-9247-bb680e5fe0c8".to_string(),
        canonical_url: Some("https://a.example/post".to_string()),
        lead_image_url: Some("https://a.example/old.png".to_string()),
        language: None,
        published_at: None,
    };
    let polled = AdoptionFields {
        guid: "entry-content-abc".to_string(),
        canonical_url: Some("https://b.example/post".to_string()),
        lead_image_url: None,
        language: Some("en".to_string()),
        published_at: Some(Timestamp { secs: 100, nanos: 0 }),
    };
    let r = adopt_polled_fields(stored, polled);
    assert_eq!(r.guid, "entry-content-abc");
    assert_eq!(r.canonical_url.as_deref(), Some("https://a.example/post"));
    assert_eq!(r.lead_image_url.as_deref(), Some("https://a.example/old.png"));
    assert_eq!(r.language.as_deref(), Some("en"));
    assert_eq!(r.published_at, Some(Timestamp { secs: 100, nanos: 0 }));
}
