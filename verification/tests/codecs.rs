use ind_persistence::codecs::{
    ClientType,
    EntityType,
    FeedSearchSurface,
    FeedType,
    FeedVisibility,
    ImportItemOutcome,
    ImportJobStatus,
    ImportMethod,
    ImportSource,
    IntegrationOAuthProvider,
    IntegrationProvider,
    MessageRole,
    MilaSessionType,
    OAuthProvider,
    SearchDocumentKind,
    SearchResultKind,
    SearchSectionKind,
    client_type_to_str,
    feed_type_to_str,
    format_message_role,
    format_session_type,
    import_method_to_str,
    import_outcome_to_str,
    import_source_to_str,
    import_status_to_str,
    integration_oauth_provider_to_str,
    oauth_provider_to_str,
    parse_client_type,
    parse_entity_type,
    parse_feed_type,
    parse_import_method,
    parse_import_source,
    parse_integration_oauth_provider,
    parse_message_role,
    parse_oauth_provider,
    parse_outcome,
    parse_provider,
    parse_search_document_kind,
    parse_search_result_kind,
    parse_search_section_kind,
    parse_session_type,
    parse_status,
    parse_visibility,
    provider_to_str,
    search_document_kind_to_str,
    surface_to_str,
    visibility_to_str,
};
use ind_persistence::error::AppError;

fn bad_code(message: &str) -> AppError {
    AppError::InvariantViolation { message: message.to_string() }
}

#[test]
fn feed_type_round_trips_and_rejects_unknown() {
    for t in [FeedType::Rss, FeedType::Atom, FeedType::Podcast, FeedType::Youtube, FeedType::Twitter, FeedType::Newsletter] {
        assert_eq!(parse_feed_type(feed_type_to_str(t)), Ok(t));
    }
    assert_eq!(feed_type_to_str(FeedType::Newsletter), "newsletter");
    assert_eq!(parse_feed_type("RSS"), Err(bad_code("unknown feed_type: RSS")));
}

#[test]
fn visibility_round_trips_and_rejects_unknown() {
    for v in [FeedVisibility::Public, FeedVisibility::Private] {
        assert_eq!(parse_visibility(visibility_to_str(v)), Ok(v));
    }
    assert_eq!(parse_visibility("hidden"), Err(bad_code("unknown feed visibility: hidden")));
}

#[test]
fn oauth_provider_round_trips_and_rejects_unknown() {
    for p in [OAuthProvider::Google, OAuthProvider::Apple, OAuthProvider::Oidc] {
        assert_eq!(parse_oauth_provider(oauth_provider_to_str(p)), Ok(p));
    }
    assert_eq!(parse_oauth_provider("github"), Err(bad_code("invalid OAuth provider: github")));
}

#[test]
fn integration_provider_round_trips_and_rejects_unknown() {
    for p in [
        IntegrationProvider::Obsidian,
        IntegrationProvider::Notion,
        IntegrationProvider::Logseq,
        IntegrationProvider::BrowserExtension,
        IntegrationProvider::EmailIngest,
    ] {
        assert_eq!(parse_provider(provider_to_str(p)), Ok(p));
    }
    assert_eq!(provider_to_str(IntegrationProvider::BrowserExtension), "browser_extension");
    assert_eq!(parse_provider(""), Err(bad_code("invalid integration provider: ")));
}

#[test]
fn integration_oauth_provider_codes() {
    assert_eq!(parse_integration_oauth_provider(integration_oauth_provider_to_str(IntegrationOAuthProvider::Notion)), Ok(IntegrationOAuthProvider::Notion));
    assert_eq!(parse_integration_oauth_provider("obsidian"), Err(bad_code("invalid integration oauth provider: obsidian")));
}

#[test]
fn mila_codes_round_trip() {
    for t in [MilaSessionType::SingleDocument, MilaSessionType::CrossItem, MilaSessionType::Collection] {
        assert_eq!(parse_session_type(format_session_type(t)), Ok(t));
    }
    for r in [MessageRole::User, MessageRole::Assistant, MessageRole::System] {
        assert_eq!(parse_message_role(format_message_role(r)), Ok(r));
    }
    assert_eq!(parse_session_type("group"), Err(bad_code("unknown mila session type: group")));
    assert_eq!(parse_message_role("tool"), Err(bad_code("unknown mila message role: tool")));
}

#[test]
fn client_type_round_trips_and_rejects_unknown() {
    for c in [ClientType::Web, ClientType::Ios, ClientType::Android, ClientType::Desktop, ClientType::Extension, ClientType::Cli] {
        assert_eq!(parse_client_type(client_type_to_str(c)), Ok(c));
    }
    assert_eq!(parse_client_type("tv"), Err(bad_code("invalid client type: tv")));
}

#[test]
fn import_codes_round_trip() {
    for s in [ImportSource::ReadwiseImport, ImportSource::NotionImport] {
        assert_eq!(parse_import_source(import_source_to_str(s)), Ok(s));
    }
    for m in [ImportMethod::Oauth, ImportMethod::Csv, ImportMethod::Zip] {
        assert_eq!(parse_import_method(import_method_to_str(m)), Ok(m));
    }
    for s in [
        ImportJobStatus::AwaitingProvider,
        ImportJobStatus::Pending,
        ImportJobStatus::Running,
        ImportJobStatus::Completed,
        ImportJobStatus::Failed,
        ImportJobStatus::Partial,
        ImportJobStatus::RolledBack,
    ] {
        assert_eq!(parse_status(import_status_to_str(s)), Ok(s));
    }
    for o in [
        ImportItemOutcome::Imported,
        ImportItemOutcome::Updated,
        ImportItemOutcome::Duplicate,
        ImportItemOutcome::SkippedPrivate,
        ImportItemOutcome::Failed,
    ] {
        assert_eq!(parse_outcome(import_outcome_to_str(o)), Ok(o));
    }
    assert_eq!(parse_import_source("pocket"), Err(bad_code("invalid import source: pocket")));
    assert_eq!(parse_import_method("ftp"), Err(bad_code("invalid import method: ftp")));
    assert_eq!(parse_status("done"), Err(bad_code("invalid import job status: done")));
    assert_eq!(parse_outcome("skipped"), Err(bad_code("invalid import item outcome: skipped")));
}

#[test]
fn search_codes() {
    for k in [SearchDocumentKind::Item, SearchDocumentKind::EpubChapter] {
        assert_eq!(parse_search_document_kind(search_document_kind_to_str(k)), Ok(k));
    }
    assert_eq!(parse_search_section_kind("epub_chapter"), Ok(SearchSectionKind::EpubChapter));
    assert_eq!(parse_search_section_kind("page"), Err(bad_code("invalid search section kind: page")));
    assert_eq!(parse_search_result_kind("feed_preview"), Ok(SearchResultKind::FeedPreview));
    assert_eq!(parse_search_result_kind("item"), Err(bad_code("invalid search result kind: item")));
    assert_eq!(parse_entity_type("organization"), Ok(EntityType::Organization));
    assert_eq!(parse_entity_type("Person"), Err(bad_code("invalid entity type: Person")));
    assert_eq!(parse_search_document_kind("doc"), Err(bad_code("invalid search document kind: doc")));
}

#[test]
fn feed_search_surface_codes() {
    assert_eq!(surface_to_str(FeedSearchSurface::All), "all");
    assert_eq!(surface_to_str(FeedSearchSurface::Rss), "rss");
    assert_eq!(surface_to_str(FeedSearchSurface::Youtube), "youtube");
    assert_eq!(surface_to_str(FeedSearchSurface::Twitter), "twitter");
}
