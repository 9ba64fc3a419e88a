//! The text codes under which the repositories store their enumerations, and the
//! decoding of stored codes, which refuses any text that names no variant.

use vstd::prelude::*;
use crate::error::{AppError, ErrorView};
use crate::text::{concat, str_eq};

verus! {

/// The error for a stored code that names no variant: the message prefix, then the code.
pub open spec fn unknown_code(prefix: Seq<char>, value: Seq<char>) -> ErrorView {
    ErrorView::InvariantViolation { message: prefix + value }
}

fn unknown(prefix: &str, value: &str) -> (e: AppError)
    ensures
        e@ == unknown_code(prefix@, value@),
{
    AppError::InvariantViolation { message: concat(prefix, value) }
}

/// The kind of a feed source.
#[derive(Clone, Copy, Debug, PartialEq, Eq, Structural)]
pub enum FeedType {
    Rss,
    Atom,
    Podcast,
    Youtube,
    Twitter,
    Newsletter,
}

/// The stored code of each [`FeedType`] variant.
pub open spec fn feed_type_text(v: FeedType) -> Seq<char> {
    match v {
        FeedType::Rss => "rss"@,
        FeedType::Atom => "atom"@,
        FeedType::Podcast => "podcast"@,
        FeedType::Youtube => "youtube"@,
        FeedType::Twitter => "twitter"@,
        FeedType::Newsletter => "newsletter"@,
    }
}

/// The [`FeedType`] a stored code names, if any.
pub open spec fn feed_type_from_text(s: Seq<char>) -> Option<FeedType> {
    if s == "rss"@ {
        Some(FeedType::Rss)
    } else if s == "atom"@ {
        Some(FeedType::Atom)
    } else if s == "podcast"@ {
        Some(FeedType::Podcast)
    } else if s == "youtube"@ {
        Some(FeedType::Youtube)
    } else if s == "twitter"@ {
        Some(FeedType::Twitter)
    } else if s == "newsletter"@ {
        Some(FeedType::Newsletter)
    } else {
        None
    }
}

/// The stored code of each [`FeedType`] variant.
pub fn feed_type_to_str(v: FeedType) -> (s: &'static str)
    ensures
        s@ == feed_type_text(v),
{
    match v {
        FeedType::Rss => "rss",
        FeedType::Atom => "atom",
        FeedType::Podcast => "podcast",
        FeedType::Youtube => "youtube",
        FeedType::Twitter => "twitter",
        FeedType::Newsletter => "newsletter",
    }
}

/// Decodes a stored [`FeedType`] code; any other text is an invariant violation.
pub fn parse_feed_type(s: &str) -> (r: Result<FeedType, AppError>)
    ensures
        r is Ok <==> feed_type_from_text(s@) is Some,
        r matches Ok(v) ==> feed_type_from_text(s@) == Some(v),
        r matches Err(e) ==> e@ == unknown_code("unknown feed_type: "@, s@),
{
    if str_eq(s, "rss") {
        Ok(FeedType::Rss)
    } else if str_eq(s, "atom") {
        Ok(FeedType::Atom)
    } else if str_eq(s, "podcast") {
        Ok(FeedType::Podcast)
    } else if str_eq(s, "youtube") {
        Ok(FeedType::Youtube)
    } else if str_eq(s, "twitter") {
        Ok(FeedType::Twitter)
    } else if str_eq(s, "newsletter") {
        Ok(FeedType::Newsletter)
    } else {
        Err(unknown("unknown feed_type: ", s))
    }
}

/// Every [`FeedType`] decodes back from its stored code.
pub proof fn lemma_feed_type_round_trip(v: FeedType)
    ensures
        feed_type_from_text(feed_type_text(v)) == Some(v),
{
    match v {
        FeedType::Rss => {
            reveal_strlit("rss");
        },
        FeedType::Atom => {
            reveal_strlit("atom");
            reveal_strlit("rss");
            assert("atom"@.len() != "rss"@.len());
        },
        FeedType::Podcast => {
            reveal_strlit("podcast");
            reveal_strlit("rss");
            assert("podcast"@.len() != "rss"@.len());
            reveal_strlit("atom");
            assert("podcast"@.len() != "atom"@.len());
        },
        FeedType::Youtube => {
            reveal_strlit("youtube");
            reveal_strlit("rss");
            assert("youtube"@.len() != "rss"@.len());
            reveal_strlit("atom");
            assert("youtube"@.len() != "atom"@.len());
            reveal_strlit("podcast");
            assert("youtube"@[0] != "podcast"@[0]);
        },
        FeedType::Twitter => {
            reveal_strlit("twitter");
            reveal_strlit("rss");
            assert("twitter"@.len() != "rss"@.len());
            reveal_strlit("atom");
            assert("twitter"@.len() != "atom"@.len());
            reveal_strlit("podcast");
            assert("twitter"@[0] != "podcast"@[0]);
            reveal_strlit("youtube");
            assert("twitter"@[0] != "youtube"@[0]);
        },
        FeedType::Newsletter => {
            reveal_strlit("newsletter");
            reveal_strlit("rss");
            assert("newsletter"@.len() != "rss"@.len());
            reveal_strlit("atom");
            assert("newsletter"@.len() != "atom"@.len());
            reveal_strlit("podcast");
            assert("newsletter"@.len() != "podcast"@.len());
            reveal_strlit("youtube");
            assert("newsletter"@.len() != "youtube"@.len());
            reveal_strlit("twitter");
            assert("newsletter"@.len() != "twitter"@.len());
        },
    }
}

/// A decoded code is the stored code of what it decodes to.
pub proof fn lemma_feed_type_decode_encodes(s: Seq<char>)
    ensures
        feed_type_from_text(s) matches Some(v) ==> feed_type_text(v) == s,
{
}

/// Whether a feed source is listed for other users.
#[derive(Clone, Copy, Debug, PartialEq, Eq, Structural)]
pub enum FeedVisibility {
    Public,
    Private,
}

/// The stored code of each [`FeedVisibility`] variant.
pub open spec fn visibility_text(v: FeedVisibility) -> Seq<char> {
    match v {
        FeedVisibility::Public => "public"@,
        FeedVisibility::Private => "private"@,
    }
}

/// The [`FeedVisibility`] a stored code names, if any.
pub open spec fn visibility_from_text(s: Seq<char>) -> Option<FeedVisibility> {
    if s == "public"@ {
        Some(FeedVisibility::Public)
    } else if s == "private"@ {
        Some(FeedVisibility::Private)
    } else {
        None
    }
}

/// The stored code of each [`FeedVisibility`] variant.
pub fn visibility_to_str(v: FeedVisibility) -> (s: &'static str)
    ensures
        s@ == visibility_text(v),
{
    match v {
        FeedVisibility::Public => "public",
        FeedVisibility::Private => "private",
    }
}

/// Decodes a stored [`FeedVisibility`] code; any other text is an invariant violation.
pub fn parse_visibility(s: &str) -> (r: Result<FeedVisibility, AppError>)
    ensures
        r is Ok <==> visibility_from_text(s@) is Some,
        r matches Ok(v) ==> visibility_from_text(s@) == Some(v),
        r matches Err(e) ==> e@ == unknown_code("unknown feed visibility: "@, s@),
{
    if str_eq(s, "public") {
        Ok(FeedVisibility::Public)
    } else if str_eq(s, "private") {
        Ok(FeedVisibility::Private)
    } else {
        Err(unknown("unknown feed visibility: ", s))
    }
}

/// Every [`FeedVisibility`] decodes back from its stored code.
pub proof fn lemma_visibility_round_trip(v: FeedVisibility)
    ensures
        visibility_from_text(visibility_text(v)) == Some(v),
{
    match v {
        FeedVisibility::Public => {
            reveal_strlit("public");
        },
        FeedVisibility::Private => {
            reveal_strlit("private");
            reveal_strlit("public");
            assert("private"@.len() != "public"@.len());
        },
    }
}

/// A decoded code is the stored code of what it decodes to.
pub proof fn lemma_visibility_decode_encodes(s: Seq<char>)
    ensures
        visibility_from_text(s) matches Some(v) ==> visibility_text(v) == s,
{
}

/// A sign-in identity provider.
#[derive(Clone, Copy, Debug, PartialEq, Eq, Structural)]
pub enum OAuthProvider {
    Google,
    Apple,
    Oidc,
}

/// The stored code of each [`OAuthProvider`] variant.
pub open spec fn oauth_provider_text(v: OAuthProvider) -> Seq<char> {
    match v {
        OAuthProvider::Google => "google"@,
        OAuthProvider::Apple => "apple"@,
        OAuthProvider::Oidc => "oidc"@,
    }
}

/// The [`OAuthProvider`] a stored code names, if any.
pub open spec fn oauth_provider_from_text(s: Seq<char>) -> Option<OAuthProvider> {
    if s == "google"@ {
        Some(OAuthProvider::Google)
    } else if s == "apple"@ {
        Some(OAuthProvider::Apple)
    } else if s == "oidc"@ {
        Some(OAuthProvider::Oidc)
    } else {
        None
    }
}

/// The stored code of each [`OAuthProvider`] variant.
pub fn oauth_provider_to_str(v: OAuthProvider) -> (s: &'static str)
    ensures
        s@ == oauth_provider_text(v),
{
    match v {
        OAuthProvider::Google => "google",
        OAuthProvider::Apple => "apple",
        OAuthProvider::Oidc => "oidc",
    }
}

/// Decodes a stored [`OAuthProvider`] code; any other text is an invariant violation.
pub fn parse_oauth_provider(s: &str) -> (r: Result<OAuthProvider, AppError>)
    ensures
        r is Ok <==> oauth_provider_from_text(s@) is Some,
        r matches Ok(v) ==> oauth_provider_from_text(s@) == Some(v),
        r matches Err(e) ==> e@ == unknown_code("invalid OAuth provider: "@, s@),
{
    if str_eq(s, "google") {
        Ok(OAuthProvider::Google)
    } else if str_eq(s, "apple") {
        Ok(OAuthProvider::Apple)
    } else if str_eq(s, "oidc") {
        Ok(OAuthProvider::Oidc)
    } else {
        Err(unknown("invalid OAuth provider: ", s))
    }
}

/// Every [`OAuthProvider`] decodes back from its stored code.
pub proof fn lemma_oauth_provider_round_trip(v: OAuthProvider)
    ensures
        oauth_provider_from_text(oauth_provider_text(v)) == Some(v),
{
    match v {
        OAuthProvider::Google => {
            reveal_strlit("google");
        },
        OAuthProvider::Apple => {
            reveal_strlit("apple");
            reveal_strlit("google");
            assert("apple"@.len() != "google"@.len());
        },
        OAuthProvider::Oidc => {
            reveal_strlit("oidc");
            reveal_strlit("google");
            assert("oidc"@.len() != "google"@.len());
            reveal_strlit("apple");
            assert("oidc"@.len() != "apple"@.len());
        },
    }
}

/// A decoded code is the stored code of what it decodes to.
pub proof fn lemma_oauth_provider_decode_encodes(s: Seq<char>)
    ensures
        oauth_provider_from_text(s) matches Some(v) ==> oauth_provider_text(v) == s,
{
}

/// The service an integration connection talks to.
#[derive(Clone, Copy, Debug, PartialEq, Eq, Structural)]
pub enum IntegrationProvider {
    Obsidian,
    Notion,
    Logseq,
    BrowserExtension,
    EmailIngest,
}

/// The stored code of each [`IntegrationProvider`] variant.
pub open spec fn integration_provider_text(v: IntegrationProvider) -> Seq<char> {
    match v {
        IntegrationProvider::Obsidian => "obsidian"@,
        IntegrationProvider::Notion => "notion"@,
        IntegrationProvider::Logseq => "logseq"@,
        IntegrationProvider::BrowserExtension => "browser_extension"@,
        IntegrationProvider::EmailIngest => "email_ingest"@,
    }
}

/// The [`IntegrationProvider`] a stored code names, if any.
pub open spec fn integration_provider_from_text(s: Seq<char>) -> Option<IntegrationProvider> {
    if s == "obsidian"@ {
        Some(IntegrationProvider::Obsidian)
    } else if s == "notion"@ {
        Some(IntegrationProvider::Notion)
    } else if s == "logseq"@ {
        Some(IntegrationProvider::Logseq)
    } else if s == "browser_extension"@ {
        Some(IntegrationProvider::BrowserExtension)
    } else if s == "email_ingest"@ {
        Some(IntegrationProvider::EmailIngest)
    } else {
        None
    }
}

/// The stored code of each [`IntegrationProvider`] variant.
pub fn provider_to_str(v: IntegrationProvider) -> (s: &'static str)
    ensures
        s@ == integration_provider_text(v),
{
    match v {
        IntegrationProvider::Obsidian => "obsidian",
        IntegrationProvider::Notion => "notion",
        IntegrationProvider::Logseq => "logseq",
        IntegrationProvider::BrowserExtension => "browser_extension",
        IntegrationProvider::EmailIngest => "email_ingest",
    }
}

/// Decodes a stored [`IntegrationProvider`] code; any other text is an invariant violation.
pub fn parse_provider(s: &str) -> (r: Result<IntegrationProvider, AppError>)
    ensures
        r is Ok <==> integration_provider_from_text(s@) is Some,
        r matches Ok(v) ==> integration_provider_from_text(s@) == Some(v),
        r matches Err(e) ==> e@ == unknown_code("invalid integration provider: "@, s@),
{
    if str_eq(s, "obsidian") {
        Ok(IntegrationProvider::Obsidian)
    } else if str_eq(s, "notion") {
        Ok(IntegrationProvider::Notion)
    } else if str_eq(s, "logseq") {
        Ok(IntegrationProvider::Logseq)
    } else if str_eq(s, "browser_extension") {
        Ok(IntegrationProvider::BrowserExtension)
    } else if str_eq(s, "email_ingest") {
        Ok(IntegrationProvider::EmailIngest)
    } else {
        Err(unknown("invalid integration provider: ", s))
    }
}

/// Every [`IntegrationProvider`] decodes back from its stored code.
pub proof fn lemma_integration_provider_round_trip(v: IntegrationProvider)
    ensures
        integration_provider_from_text(integration_provider_text(v)) == Some(v),
{
    match v {
        IntegrationProvider::Obsidian => {
            reveal_strlit("obsidian");
        },
        IntegrationProvider::Notion => {
            reveal_strlit("notion");
            reveal_strlit("obsidian");
            assert("notion"@.len() != "obsidian"@.len());
        },
        IntegrationProvider::Logseq => {
            reveal_strlit("logseq");
            reveal_strlit("obsidian");
            assert("logseq"@.len() != "obsidian"@.len());
            reveal_strlit("notion");
            assert("logseq"@[0] != "notion"@[0]);
        },
        IntegrationProvider::BrowserExtension => {
            reveal_strlit("browser_extension");
            reveal_strlit("obsidian");
            assert("browser_extension"@.len() != "obsidian"@.len());
            reveal_strlit("notion");
            assert("browser_extension"@.len() != "notion"@.len());
            reveal_strlit("logseq");
            assert("browser_extension"@.len() != "logseq"@.len());
        },
        IntegrationProvider::EmailIngest => {
            reveal_strlit("email_ingest");
            reveal_strlit("obsidian");
            assert("email_ingest"@.len() != "obsidian"@.len());
            reveal_strlit("notion");
            assert("email_ingest"@.len() != "notion"@.len());
            reveal_strlit("logseq");
            assert("email_ingest"@.len() != "logseq"@.len());
            reveal_strlit("browser_extension");
            assert("email_ingest"@.len() != "browser_extension"@.len());
        },
    }
}

/// A decoded code is the stored code of what it decodes to.
pub proof fn lemma_integration_provider_decode_encodes(s: Seq<char>)
    ensures
        integration_provider_from_text(s) matches Some(v) ==> integration_provider_text(v) == s,
{
}

/// A provider whose OAuth tokens an integration stores.
#[derive(Clone, Copy, Debug, PartialEq, Eq, Structural)]
pub enum IntegrationOAuthProvider {
    Notion,
}

/// The stored code of each [`IntegrationOAuthProvider`] variant.
pub open spec fn integration_oauth_provider_text(v: IntegrationOAuthProvider) -> Seq<char> {
    match v {
        IntegrationOAuthProvider::Notion => "notion"@,
    }
}

/// The [`IntegrationOAuthProvider`] a stored code names, if any.
pub open spec fn integration_oauth_provider_from_text(s: Seq<char>) -> Option<IntegrationOAuthProvider> {
    if s == "notion"@ {
        Some(IntegrationOAuthProvider::Notion)
    } else {
        None
    }
}

/// The stored code of each [`IntegrationOAuthProvider`] variant.
pub fn integration_oauth_provider_to_str(v: IntegrationOAuthProvider) -> (s: &'static str)
    ensures
        s@ == integration_oauth_provider_text(v),
{
    match v {
        IntegrationOAuthProvider::Notion => "notion",
    }
}

/// Decodes a stored [`IntegrationOAuthProvider`] code; any other text is an invariant violation.
pub fn parse_integration_oauth_provider(s: &str) -> (r: Result<IntegrationOAuthProvider, AppError>)
    ensures
        r is Ok <==> integration_oauth_provider_from_text(s@) is Some,
        r matches Ok(v) ==> integration_oauth_provider_from_text(s@) == Some(v),
        r matches Err(e) ==> e@ == unknown_code("invalid integration oauth provider: "@, s@),
{
    if str_eq(s, "notion") {
        Ok(IntegrationOAuthProvider::Notion)
    } else {
        Err(unknown("invalid integration oauth provider: ", s))
    }
}

/// Every [`IntegrationOAuthProvider`] decodes back from its stored code.
pub proof fn lemma_integration_oauth_provider_round_trip(v: IntegrationOAuthProvider)
    ensures
        integration_oauth_provider_from_text(integration_oauth_provider_text(v)) == Some(v),
{
    match v {
        IntegrationOAuthProvider::Notion => {
            reveal_strlit("notion");
        },
    }
}

/// A decoded code is the stored code of what it decodes to.
pub proof fn lemma_integration_oauth_provider_decode_encodes(s: Seq<char>)
    ensures
        integration_oauth_provider_from_text(s) matches Some(v) ==> integration_oauth_provider_text(v) == s,
{
}

/// The scope of a Mila chat session.
#[derive(Clone, Copy, Debug, PartialEq, Eq, Structural)]
pub enum MilaSessionType {
    SingleDocument,
    CrossItem,
    Collection,
}

/// The stored code of each [`MilaSessionType`] variant.
pub open spec fn session_type_text(v: MilaSessionType) -> Seq<char> {
    match v {
        MilaSessionType::SingleDocument => "single_document"@,
        MilaSessionType::CrossItem => "cross_item"@,
        MilaSessionType::Collection => "collection"@,
    }
}

/// The [`MilaSessionType`] a stored code names, if any.
pub open spec fn session_type_from_text(s: Seq<char>) -> Option<MilaSessionType> {
    if s == "single_document"@ {
        Some(MilaSessionType::SingleDocument)
    } else if s == "cross_item"@ {
        Some(MilaSessionType::CrossItem)
    } else if s == "collection"@ {
        Some(MilaSessionType::Collection)
    } else {
        None
    }
}

/// The stored code of each [`MilaSessionType`] variant.
pub fn format_session_type(v: MilaSessionType) -> (s: &'static str)
    ensures
        s@ == session_type_text(v),
{
    match v {
        MilaSessionType::SingleDocument => "single_document",
        MilaSessionType::CrossItem => "cross_item",
        MilaSessionType::Collection => "collection",
    }
}

/// Decodes a stored [`MilaSessionType`] code; any other text is an invariant violation.
pub fn parse_session_type(s: &str) -> (r: Result<MilaSessionType, AppError>)
    ensures
        r is Ok <==> session_type_from_text(s@) is Some,
        r matches Ok(v) ==> session_type_from_text(s@) == Some(v),
        r matches Err(e) ==> e@ == unknown_code("unknown mila session type: "@, s@),
{
    if str_eq(s, "single_document") {
        Ok(MilaSessionType::SingleDocument)
    } else if str_eq(s, "cross_item") {
        Ok(MilaSessionType::CrossItem)
    } else if str_eq(s, "collection") {
        Ok(MilaSessionType::Collection)
    } else {
        Err(unknown("unknown mila session type: ", s))
    }
}

/// Every [`MilaSessionType`] decodes back from its stored code.
pub proof fn lemma_session_type_round_trip(v: MilaSessionType)
    ensures
        session_type_from_text(session_type_text(v)) == Some(v),
{
    match v {
        MilaSessionType::SingleDocument => {
            reveal_strlit("single_document");
        },
        MilaSessionType::CrossItem => {
            reveal_strlit("cross_item");
            reveal_strlit("single_document");
            assert("cross_item"@.len() != "single_document"@.len());
        },
        MilaSessionType::Collection => {
            reveal_strlit("collection");
            reveal_strlit("single_document");
            assert("collection"@.len() != "single_document"@.len());
            reveal_strlit("cross_item");
            assert("collection"@[1] != "cross_item"@[1]);
        },
    }
}

/// A decoded code is the stored code of what it decodes to.
pub proof fn lemma_session_type_decode_encodes(s: Seq<char>)
    ensures
        session_type_from_text(s) matches Some(v) ==> session_type_text(v) == s,
{
}

/// The author of a Mila chat message.
#[derive(Clone, Copy, Debug, PartialEq, Eq, Structural)]
pub enum MessageRole {
    User,
    Assistant,
    System,
}

/// The stored code of each [`MessageRole`] variant.
pub open spec fn message_role_text(v: MessageRole) -> Seq<char> {
    match v {
        MessageRole::User => "user"@,
        MessageRole::Assistant => "assistant"@,
        MessageRole::System => "system"@,
    }
}

/// The [`MessageRole`] a stored code names, if any.
pub open spec fn message_role_from_text(s: Seq<char>) -> Option<MessageRole> {
    if s == "user"@ {
        Some(MessageRole::User)
    } else if s == "assistant"@ {
        Some(MessageRole::Assistant)
    } else if s == "system"@ {
        Some(MessageRole::System)
    } else {
        None
    }
}

/// The stored code of each [`MessageRole`] variant.
pub fn format_message_role(v: MessageRole) -> (s: &'static str)
    ensures
        s@ == message_role_text(v),
{
    match v {
        MessageRole::User => "user",
        MessageRole::Assistant => "assistant",
        MessageRole::System => "system",
    }
}

/// Decodes a stored [`MessageRole`] code; any other text is an invariant violation.
pub fn parse_message_role(s: &str) -> (r: Result<MessageRole, AppError>)
    ensures
        r is Ok <==> message_role_from_text(s@) is Some,
        r matches Ok(v) ==> message_role_from_text(s@) == Some(v),
        r matches Err(e) ==> e@ == unknown_code("unknown mila message role: "@, s@),
{
    if str_eq(s, "user") {
        Ok(MessageRole::User)
    } else if str_eq(s, "assistant") {
        Ok(MessageRole::Assistant)
    } else if str_eq(s, "system") {
        Ok(MessageRole::System)
    } else {
        Err(unknown("unknown mila message role: ", s))
    }
}

/// Every [`MessageRole`] decodes back from its stored code.
pub proof fn lemma_message_role_round_trip(v: MessageRole)
    ensures
        message_role_from_text(message_role_text(v)) == Some(v),
{
    match v {
        MessageRole::User => {
            reveal_strlit("user");
        },
        MessageRole::Assistant => {
            reveal_strlit("assistant");
            reveal_strlit("user");
            assert("assistant"@.len() != "user"@.len());
        },
        MessageRole::System => {
            reveal_strlit("system");
            reveal_strlit("user");
            assert("system"@.len() != "user"@.len());
            reveal_strlit("assistant");
            assert("system"@.len() != "assistant"@.len());
        },
    }
}

/// A decoded code is the stored code of what it decodes to.
pub proof fn lemma_message_role_decode_encodes(s: Seq<char>)
    ensures
        message_role_from_text(s) matches Some(v) ==> message_role_text(v) == s,
{
}

/// The kind of client a refresh token was issued to.
#[derive(Clone, Copy, Debug, PartialEq, Eq, Structural)]
pub enum ClientType {
    Web,
    Ios,
    Android,
    Desktop,
    Extension,
    Cli,
}

/// The stored code of each [`ClientType`] variant.
pub open spec fn client_type_text(v: ClientType) -> Seq<char> {
    match v {
        ClientType::Web => "web"@,
        ClientType::Ios => "ios"@,
        ClientType::Android => "android"@,
        ClientType::Desktop => "desktop"@,
        ClientType::Extension => "extension"@,
        ClientType::Cli => "cli"@,
    }
}

/// The [`ClientType`] a stored code names, if any.
pub open spec fn client_type_from_text(s: Seq<char>) -> Option<ClientType> {
    if s == "web"@ {
        Some(ClientType::Web)
    } else if s == "ios"@ {
        Some(ClientType::Ios)
    } else if s == "android"@ {
        Some(ClientType::Android)
    } else if s == "desktop"@ {
        Some(ClientType::Desktop)
    } else if s == "extension"@ {
        Some(ClientType::Extension)
    } else if s == "cli"@ {
        Some(ClientType::Cli)
    } else {
        None
    }
}

/// The stored code of each [`ClientType`] variant.
pub fn client_type_to_str(v: ClientType) -> (s: &'static str)
    ensures
        s@ == client_type_text(v),
{
    match v {
        ClientType::Web => "web",
        ClientType::Ios => "ios",
        ClientType::Android => "android",
        ClientType::Desktop => "desktop",
        ClientType::Extension => "extension",
        ClientType::Cli => "cli",
    }
}

/// Decodes a stored [`ClientType`] code; any other text is an invariant violation.
pub fn parse_client_type(s: &str) -> (r: Result<ClientType, AppError>)
    ensures
        r is Ok <==> client_type_from_text(s@) is Some,
        r matches Ok(v) ==> client_type_from_text(s@) == Some(v),
        r matches Err(e) ==> e@ == unknown_code("invalid client type: "@, s@),
{
    if str_eq(s, "web") {
        Ok(ClientType::Web)
    } else if str_eq(s, "ios") {
        Ok(ClientType::Ios)
    } else if str_eq(s, "android") {
        Ok(ClientType::Android)
    } else if str_eq(s, "desktop") {
        Ok(ClientType::Desktop)
    } else if str_eq(s, "extension") {
        Ok(ClientType::Extension)
    } else if str_eq(s, "cli") {
        Ok(ClientType::Cli)
    } else {
        Err(unknown("invalid client type: ", s))
    }
}

/// Every [`ClientType`] decodes back from its stored code.
pub proof fn lemma_client_type_round_trip(v: ClientType)
    ensures
        client_type_from_text(client_type_text(v)) == Some(v),
{
    match v {
        ClientType::Web => {
            reveal_strlit("web");
        },
        ClientType::Ios => {
            reveal_strlit("ios");
            reveal_strlit("web");
            assert("ios"@[0] != "web"@[0]);
        },
        ClientType::Android => {
            reveal_strlit("android");
            reveal_strlit("web");
            assert("android"@.len() != "web"@.len());
            reveal_strlit("ios");
            assert("android"@.len() != "ios"@.len());
        },
        ClientType::Desktop => {
            reveal_strlit("desktop");
            reveal_strlit("web");
            assert("desktop"@.len() != "web"@.len());
            reveal_strlit("ios");
            assert("desktop"@.len() != "ios"@.len());
            reveal_strlit("android");
            assert("desktop"@[0] != "android"@[0]);
        },
        ClientType::Extension => {
            reveal_strlit("extension");
            reveal_strlit("web");
            assert("extension"@.len() != "web"@.len());
            reveal_strlit("ios");
            assert("extension"@.len() != "ios"@.len());
            reveal_strlit("android");
            assert("extension"@.len() != "android"@.len());
            reveal_strlit("desktop");
            assert("extension"@.len() != "desktop"@.len());
        },
        ClientType::Cli => {
            reveal_strlit("cli");
            reveal_strlit("web");
            assert("cli"@[0] != "web"@[0]);
            reveal_strlit("ios");
            assert("cli"@[0] != "ios"@[0]);
            reveal_strlit("android");
            assert("cli"@.len() != "android"@.len());
            reveal_strlit("desktop");
            assert("cli"@.len() != "desktop"@.len());
            reveal_strlit("extension");
            assert("cli"@.len() != "extension"@.len());
        },
    }
}

/// A decoded code is the stored code of what it decodes to.
pub proof fn lemma_client_type_decode_encodes(s: Seq<char>)
    ensures
        client_type_from_text(s) matches Some(v) ==> client_type_text(v) == s,
{
}

/// Where an import job reads from.
#[derive(Clone, Copy, Debug, PartialEq, Eq, Structural)]
pub enum ImportSource {
    ReadwiseImport,
    NotionImport,
}

/// The stored code of each [`ImportSource`] variant.
pub open spec fn import_source_text(v: ImportSource) -> Seq<char> {
    match v {
        ImportSource::ReadwiseImport => "readwise_import"@,
        ImportSource::NotionImport => "notion_import"@,
    }
}

/// The [`ImportSource`] a stored code names, if any.
pub open spec fn import_source_from_text(s: Seq<char>) -> Option<ImportSource> {
    if s == "readwise_import"@ {
        Some(ImportSource::ReadwiseImport)
    } else if s == "notion_import"@ {
        Some(ImportSource::NotionImport)
    } else {
        None
    }
}

/// The stored code of each [`ImportSource`] variant.
pub fn import_source_to_str(v: ImportSource) -> (s: &'static str)
    ensures
        s@ == import_source_text(v),
{
    match v {
        ImportSource::ReadwiseImport => "readwise_import",
        ImportSource::NotionImport => "notion_import",
    }
}

/// Decodes a stored [`ImportSource`] code; any other text is an invariant violation.
pub fn parse_import_source(s: &str) -> (r: Result<ImportSource, AppError>)
    ensures
        r is Ok <==> import_source_from_text(s@) is Some,
        r matches Ok(v) ==> import_source_from_text(s@) == Some(v),
        r matches Err(e) ==> e@ == unknown_code("invalid import source: "@, s@),
{
    if str_eq(s, "readwise_import") {
        Ok(ImportSource::ReadwiseImport)
    } else if str_eq(s, "notion_import") {
        Ok(ImportSource::NotionImport)
    } else {
        Err(unknown("invalid import source: ", s))
    }
}

/// Every [`ImportSource`] decodes back from its stored code.
pub proof fn lemma_import_source_round_trip(v: ImportSource)
    ensures
        import_source_from_text(import_source_text(v)) == Some(v),
{
    match v {
        ImportSource::ReadwiseImport => {
            reveal_strlit("readwise_import");
        },
        ImportSource::NotionImport => {
            reveal_strlit("notion_import");
            reveal_strlit("readwise_import");
            assert("notion_import"@.len() != "readwise_import"@.len());
        },
    }
}

/// A decoded code is the stored code of what it decodes to.
pub proof fn lemma_import_source_decode_encodes(s: Seq<char>)
    ensures
        import_source_from_text(s) matches Some(v) ==> import_source_text(v) == s,
{
}

/// How an import job receives its data.
#[derive(Clone, Copy, Debug, PartialEq, Eq, Structural)]
pub enum ImportMethod {
    Oauth,
    Csv,
    Zip,
}

/// The stored code of each [`ImportMethod`] variant.
pub open spec fn import_method_text(v: ImportMethod) -> Seq<char> {
    match v {
        ImportMethod::Oauth => "oauth"@,
        ImportMethod::Csv => "csv"@,
        ImportMethod::Zip => "zip"@,
    }
}

/// The [`ImportMethod`] a stored code names, if any.
pub open spec fn import_method_from_text(s: Seq<char>) -> Option<ImportMethod> {
    if s == "oauth"@ {
        Some(ImportMethod::Oauth)
    } else if s == "csv"@ {
        Some(ImportMethod::Csv)
    } else if s == "zip"@ {
        Some(ImportMethod::Zip)
    } else {
        None
    }
}

/// The stored code of each [`ImportMethod`] variant.
pub fn import_method_to_str(v: ImportMethod) -> (s: &'static str)
    ensures
        s@ == import_method_text(v),
{
    match v {
        ImportMethod::Oauth => "oauth",
        ImportMethod::Csv => "csv",
        ImportMethod::Zip => "zip",
    }
}

/// Decodes a stored [`ImportMethod`] code; any other text is an invariant violation.
pub fn parse_import_method(s: &str) -> (r: Result<ImportMethod, AppError>)
    ensures
        r is Ok <==> import_method_from_text(s@) is Some,
        r matches Ok(v) ==> import_method_from_text(s@) == Some(v),
        r matches Err(e) ==> e@ == unknown_code("invalid import method: "@, s@),
{
    if str_eq(s, "oauth") {
        Ok(ImportMethod::Oauth)
    } else if str_eq(s, "csv") {
        Ok(ImportMethod::Csv)
    } else if str_eq(s, "zip") {
        Ok(ImportMethod::Zip)
    } else {
        Err(unknown("invalid import method: ", s))
    }
}

/// Every [`ImportMethod`] decodes back from its stored code.
pub proof fn lemma_import_method_round_trip(v: ImportMethod)
    ensures
        import_method_from_text(import_method_text(v)) == Some(v),
{
    match v {
        ImportMethod::Oauth => {
            reveal_strlit("oauth");
        },
        ImportMethod::Csv => {
            reveal_strlit("csv");
            reveal_strlit("oauth");
            assert("csv"@.len() != "oauth"@.len());
        },
        ImportMethod::Zip => {
            reveal_strlit("zip");
            reveal_strlit("oauth");
            assert("zip"@.len() != "oauth"@.len());
            reveal_strlit("csv");
            assert("zip"@[0] != "csv"@[0]);
        },
    }
}

/// A decoded code is the stored code of what it decodes to.
pub proof fn lemma_import_method_decode_encodes(s: Seq<char>)
    ensures
        import_method_from_text(s) matches Some(v) ==> import_method_text(v) == s,
{
}

/// The state of an import job.
#[derive(Clone, Copy, Debug, PartialEq, Eq, Structural)]
pub enum ImportJobStatus {
    AwaitingProvider,
    Pending,
    Running,
    Completed,
    Failed,
    Partial,
    RolledBack,
}

/// The stored code of each [`ImportJobStatus`] variant.
pub open spec fn import_status_text(v: ImportJobStatus) -> Seq<char> {
    match v {
        ImportJobStatus::AwaitingProvider => "awaiting_provider"@,
        ImportJobStatus::Pending => "pending"@,
        ImportJobStatus::Running => "running"@,
        ImportJobStatus::Completed => "completed"@,
        ImportJobStatus::Failed => "failed"@,
        ImportJobStatus::Partial => "partial"@,
        ImportJobStatus::RolledBack => "rolled_back"@,
    }
}

/// The [`ImportJobStatus`] a stored code names, if any.
pub open spec fn import_status_from_text(s: Seq<char>) -> Option<ImportJobStatus> {
    if s == "awaiting_provider"@ {
        Some(ImportJobStatus::AwaitingProvider)
    } else if s == "pending"@ {
        Some(ImportJobStatus::Pending)
    } else if s == "running"@ {
        Some(ImportJobStatus::Running)
    } else if s == "completed"@ {
        Some(ImportJobStatus::Completed)
    } else if s == "failed"@ {
        Some(ImportJobStatus::Failed)
    } else if s == "partial"@ {
        Some(ImportJobStatus::Partial)
    } else if s == "rolled_back"@ {
        Some(ImportJobStatus::RolledBack)
    } else {
        None
    }
}

/// The stored code of each [`ImportJobStatus`] variant.
pub fn import_status_to_str(v: ImportJobStatus) -> (s: &'static str)
    ensures
        s@ == import_status_text(v),
{
    match v {
        ImportJobStatus::AwaitingProvider => "awaiting_provider",
        ImportJobStatus::Pending => "pending",
        ImportJobStatus::Running => "running",
        ImportJobStatus::Completed => "completed",
        ImportJobStatus::Failed => "failed",
        ImportJobStatus::Partial => "partial",
        ImportJobStatus::RolledBack => "rolled_back",
    }
}

/// Decodes a stored [`ImportJobStatus`] code; any other text is an invariant violation.
pub fn parse_status(s: &str) -> (r: Result<ImportJobStatus, AppError>)
    ensures
        r is Ok <==> import_status_from_text(s@) is Some,
        r matches Ok(v) ==> import_status_from_text(s@) == Some(v),
        r matches Err(e) ==> e@ == unknown_code("invalid import job status: "@, s@),
{
    if str_eq(s, "awaiting_provider") {
        Ok(ImportJobStatus::AwaitingProvider)
    } else if str_eq(s, "pending") {
        Ok(ImportJobStatus::Pending)
    } else if str_eq(s, "running") {
        Ok(ImportJobStatus::Running)
    } else if str_eq(s, "completed") {
        Ok(ImportJobStatus::Completed)
    } else if str_eq(s, "failed") {
        Ok(ImportJobStatus::Failed)
    } else if str_eq(s, "partial") {
        Ok(ImportJobStatus::Partial)
    } else if str_eq(s, "rolled_back") {
        Ok(ImportJobStatus::RolledBack)
    } else {
        Err(unknown("invalid import job status: ", s))
    }
}

/// Every [`ImportJobStatus`] decodes back from its stored code.
pub proof fn lemma_import_status_round_trip(v: ImportJobStatus)
    ensures
        import_status_from_text(import_status_text(v)) == Some(v),
{
    match v {
        ImportJobStatus::AwaitingProvider => {
            reveal_strlit("awaiting_provider");
        },
        ImportJobStatus::Pending => {
            reveal_strlit("pending");
            reveal_strlit("awaiting_provider");
            assert("pending"@.len() != "awaiting_provider"@.len());
        },
        ImportJobStatus::Running => {
            reveal_strlit("running");
            reveal_strlit("awaiting_provider");
            assert("running"@.len() != "awaiting_provider"@.len());
            reveal_strlit("pending");
            assert("running"@[0] != "pending"@[0]);
        },
        ImportJobStatus::Completed => {
            reveal_strlit("completed");
            reveal_strlit("awaiting_provider");
            assert("completed"@.len() != "awaiting_provider"@.len());
            reveal_strlit("pending");
            assert("completed"@.len() != "pending"@.len());
            reveal_strlit("running");
            assert("completed"@.len() != "running"@.len());
        },
        ImportJobStatus::Failed => {
            reveal_strlit("failed");
            reveal_strlit("awaiting_provider");
            assert("failed"@.len() != "awaiting_provider"@.len());
            reveal_strlit("pending");
            assert("failed"@.len() != "pending"@.len());
            reveal_strlit("running");
            assert("failed"@.len() != "running"@.len());
            reveal_strlit("completed");
            assert("failed"@.len() != "completed"@.len());
        },
        ImportJobStatus::Partial => {
            reveal_strlit("partial");
            reveal_strlit("awaiting_provider");
            assert("partial"@.len() != "awaiting_provider"@.len());
            reveal_strlit("pending");
            assert("partial"@[1] != "pending"@[1]);
            reveal_strlit("running");
            assert("partial"@[0] != "running"@[0]);
            reveal_strlit("completed");
            assert("partial"@.len() != "completed"@.len());
            reveal_strlit("failed");
            assert("partial"@.len() != "failed"@.len());
        },
        ImportJobStatus::RolledBack => {
            reveal_strlit("rolled_back");
            reveal_strlit("awaiting_provider");
            assert("rolled_back"@.len() != "awaiting_provider"@.len());
            reveal_strlit("pending");
            assert("rolled_back"@.len() != "pending"@.len());
            reveal_strlit("running");
            assert("rolled_back"@.len() != "running"@.len());
            reveal_strlit("completed");
            assert("rolled_back"@.len() != "completed"@.len());
            reveal_strlit("failed");
            assert("rolled_back"@.len() != "failed"@.len());
            reveal_strlit("partial");
            assert("rolled_back"@.len() != "partial"@.len());
        },
    }
}

/// A decoded code is the stored code of what it decodes to.
pub proof fn lemma_import_status_decode_encodes(s: Seq<char>)
    ensures
        import_status_from_text(s) matches Some(v) ==> import_status_text(v) == s,
{
}

/// What became of one imported item.
#[derive(Clone, Copy, Debug, PartialEq, Eq, Structural)]
pub enum ImportItemOutcome {
    Imported,
    Updated,
    Duplicate,
    SkippedPrivate,
    Failed,
}

/// The stored code of each [`ImportItemOutcome`] variant.
pub open spec fn import_outcome_text(v: ImportItemOutcome) -> Seq<char> {
    match v {
        ImportItemOutcome::Imported => "imported"@,
        ImportItemOutcome::Updated => "updated"@,
        ImportItemOutcome::Duplicate => "duplicate"@,
        ImportItemOutcome::SkippedPrivate => "skipped_private"@,
        ImportItemOutcome::Failed => "failed"@,
    }
}

/// The [`ImportItemOutcome`] a stored code names, if any.
pub open spec fn import_outcome_from_text(s: Seq<char>) -> Option<ImportItemOutcome> {
    if s == "imported"@ {
        Some(ImportItemOutcome::Imported)
    } else if s == "updated"@ {
        Some(ImportItemOutcome::Updated)
    } else if s == "duplicate"@ {
        Some(ImportItemOutcome::Duplicate)
    } else if s == "skipped_private"@ {
        Some(ImportItemOutcome::SkippedPrivate)
    } else if s == "failed"@ {
        Some(ImportItemOutcome::Failed)
    } else {
        None
    }
}

/// The stored code of each [`ImportItemOutcome`] variant.
pub fn import_outcome_to_str(v: ImportItemOutcome) -> (s: &'static str)
    ensures
        s@ == import_outcome_text(v),
{
    match v {
        ImportItemOutcome::Imported => "imported",
        ImportItemOutcome::Updated => "updated",
        ImportItemOutcome::Duplicate => "duplicate",
        ImportItemOutcome::SkippedPrivate => "skipped_private",
        ImportItemOutcome::Failed => "failed",
    }
}

/// Decodes a stored [`ImportItemOutcome`] code; any other text is an invariant violation.
pub fn parse_outcome(s: &str) -> (r: Result<ImportItemOutcome, AppError>)
    ensures
        r is Ok <==> import_outcome_from_text(s@) is Some,
        r matches Ok(v) ==> import_outcome_from_text(s@) == Some(v),
        r matches Err(e) ==> e@ == unknown_code("invalid import item outcome: "@, s@),
{
    if str_eq(s, "imported") {
        Ok(ImportItemOutcome::Imported)
    } else if str_eq(s, "updated") {
        Ok(ImportItemOutcome::Updated)
    } else if str_eq(s, "duplicate") {
        Ok(ImportItemOutcome::Duplicate)
    } else if str_eq(s, "skipped_private") {
        Ok(ImportItemOutcome::SkippedPrivate)
    } else if str_eq(s, "failed") {
        Ok(ImportItemOutcome::Failed)
    } else {
        Err(unknown("invalid import item outcome: ", s))
    }
}

/// Every [`ImportItemOutcome`] decodes back from its stored code.
pub proof fn lemma_import_outcome_round_trip(v: ImportItemOutcome)
    ensures
        import_outcome_from_text(import_outcome_text(v)) == Some(v),
{
    match v {
        ImportItemOutcome::Imported => {
            reveal_strlit("imported");
        },
        ImportItemOutcome::Updated => {
            reveal_strlit("updated");
            reveal_strlit("imported");
            assert("updated"@.len() != "imported"@.len());
        },
        ImportItemOutcome::Duplicate => {
            reveal_strlit("duplicate");
            reveal_strlit("imported");
            assert("duplicate"@.len() != "imported"@.len());
            reveal_strlit("updated");
            assert("duplicate"@.len() != "updated"@.len());
        },
        ImportItemOutcome::SkippedPrivate => {
            reveal_strlit("skipped_private");
            reveal_strlit("imported");
            assert("skipped_private"@.len() != "imported"@.len());
            reveal_strlit("updated");
            assert("skipped_private"@.len() != "updated"@.len());
            reveal_strlit("duplicate");
            assert("skipped_private"@.len() != "duplicate"@.len());
        },
        ImportItemOutcome::Failed => {
            reveal_strlit("failed");
            reveal_strlit("imported");
            assert("failed"@.len() != "imported"@.len());
            reveal_strlit("updated");
            assert("failed"@.len() != "updated"@.len());
            reveal_strlit("duplicate");
            assert("failed"@.len() != "duplicate"@.len());
            reveal_strlit("skipped_private");
            assert("failed"@.len() != "skipped_private"@.len());
        },
    }
}

/// A decoded code is the stored code of what it decodes to.
pub proof fn lemma_import_outcome_decode_encodes(s: Seq<char>)
    ensures
        import_outcome_from_text(s) matches Some(v) ==> import_outcome_text(v) == s,
{
}

/// What a search document indexes.
#[derive(Clone, Copy, Debug, PartialEq, Eq, Structural)]
pub enum SearchDocumentKind {
    Item,
    EpubChapter,
}

/// The stored code of each [`SearchDocumentKind`] variant.
pub open spec fn search_document_kind_text(v: SearchDocumentKind) -> Seq<char> {
    match v {
        SearchDocumentKind::Item => "item"@,
        SearchDocumentKind::EpubChapter => "epub_chapter"@,
    }
}

/// The [`SearchDocumentKind`] a stored code names, if any.
pub open spec fn search_document_kind_from_text(s: Seq<char>) -> Option<SearchDocumentKind> {
    if s == "item"@ {
        Some(SearchDocumentKind::Item)
    } else if s == "epub_chapter"@ {
        Some(SearchDocumentKind::EpubChapter)
    } else {
        None
    }
}

/// The stored code of each [`SearchDocumentKind`] variant.
pub fn search_document_kind_to_str(v: SearchDocumentKind) -> (s: &'static str)
    ensures
        s@ == search_document_kind_text(v),
{
    match v {
        SearchDocumentKind::Item => "item",
        SearchDocumentKind::EpubChapter => "epub_chapter",
    }
}

/// Decodes a stored [`SearchDocumentKind`] code; any other text is an invariant violation.
pub fn parse_search_document_kind(s: &str) -> (r: Result<SearchDocumentKind, AppError>)
    ensures
        r is Ok <==> search_document_kind_from_text(s@) is Some,
        r matches Ok(v) ==> search_document_kind_from_text(s@) == Some(v),
        r matches Err(e) ==> e@ == unknown_code("invalid search document kind: "@, s@),
{
    if str_eq(s, "item") {
        Ok(SearchDocumentKind::Item)
    } else if str_eq(s, "epub_chapter") {
        Ok(SearchDocumentKind::EpubChapter)
    } else {
        Err(unknown("invalid search document kind: ", s))
    }
}

/// Every [`SearchDocumentKind`] decodes back from its stored code.
pub proof fn lemma_search_document_kind_round_trip(v: SearchDocumentKind)
    ensures
        search_document_kind_from_text(search_document_kind_text(v)) == Some(v),
{
    match v {
        SearchDocumentKind::Item => {
            reveal_strlit("item");
        },
        SearchDocumentKind::EpubChapter => {
            reveal_strlit("epub_chapter");
            reveal_strlit("item");
            assert("epub_chapter"@.len() != "item"@.len());
        },
    }
}

/// A decoded code is the stored code of what it decodes to.
pub proof fn lemma_search_document_kind_decode_encodes(s: Seq<char>)
    ensures
        search_document_kind_from_text(s) matches Some(v) ==> search_document_kind_text(v) == s,
{
}

/// The kind of the section a search hit points into.
#[derive(Clone, Copy, Debug, PartialEq, Eq, Structural)]
pub enum SearchSectionKind {
    Item,
    EpubChapter,
}

/// The stored code of each [`SearchSectionKind`] variant.
pub open spec fn search_section_kind_text(v: SearchSectionKind) -> Seq<char> {
    match v {
        SearchSectionKind::Item => "item"@,
        SearchSectionKind::EpubChapter => "epub_chapter"@,
    }
}

/// The [`SearchSectionKind`] a stored code names, if any.
pub open spec fn search_section_kind_from_text(s: Seq<char>) -> Option<SearchSectionKind> {
    if s == "item"@ {
        Some(SearchSectionKind::Item)
    } else if s == "epub_chapter"@ {
        Some(SearchSectionKind::EpubChapter)
    } else {
        None
    }
}

/// Decodes a stored [`SearchSectionKind`] code; any other text is an invariant violation.
pub fn parse_search_section_kind(s: &str) -> (r: Result<SearchSectionKind, AppError>)
    ensures
        r is Ok <==> search_section_kind_from_text(s@) is Some,
        r matches Ok(v) ==> search_section_kind_from_text(s@) == Some(v),
        r matches Err(e) ==> e@ == unknown_code("invalid search section kind: "@, s@),
{
    if str_eq(s, "item") {
        Ok(SearchSectionKind::Item)
    } else if str_eq(s, "epub_chapter") {
        Ok(SearchSectionKind::EpubChapter)
    } else {
        Err(unknown("invalid search section kind: ", s))
    }
}

/// Every [`SearchSectionKind`] decodes back from its stored code.
pub proof fn lemma_search_section_kind_round_trip(v: SearchSectionKind)
    ensures
        search_section_kind_from_text(search_section_kind_text(v)) == Some(v),
{
    match v {
        SearchSectionKind::Item => {
            reveal_strlit("item");
        },
        SearchSectionKind::EpubChapter => {
            reveal_strlit("epub_chapter");
            reveal_strlit("item");
            assert("epub_chapter"@.len() != "item"@.len());
        },
    }
}

/// A decoded code is the stored code of what it decodes to.
pub proof fn lemma_search_section_kind_decode_encodes(s: Seq<char>)
    ensures
        search_section_kind_from_text(s) matches Some(v) ==> search_section_kind_text(v) == s,
{
}

/// Whether a search hit is a document or a feed preview.
#[derive(Clone, Copy, Debug, PartialEq, Eq, Structural)]
pub enum SearchResultKind {
    Document,
    FeedPreview,
}

/// The stored code of each [`SearchResultKind`] variant.
pub open spec fn search_result_kind_text(v: SearchResultKind) -> Seq<char> {
    match v {
        SearchResultKind::Document => "document"@,
        SearchResultKind::FeedPreview => "feed_preview"@,
    }
}

/// The [`SearchResultKind`] a stored code names, if any.
pub open spec fn search_result_kind_from_text(s: Seq<char>) -> Option<SearchResultKind> {
    if s == "document"@ {
        Some(SearchResultKind::Document)
    } else if s == "feed_preview"@ {
        Some(SearchResultKind::FeedPreview)
    } else {
        None
    }
}

/// Decodes a stored [`SearchResultKind`] code; any other text is an invariant violation.
pub fn parse_search_result_kind(s: &str) -> (r: Result<SearchResultKind, AppError>)
    ensures
        r is Ok <==> search_result_kind_from_text(s@) is Some,
        r matches Ok(v) ==> search_result_kind_from_text(s@) == Some(v),
        r matches Err(e) ==> e@ == unknown_code("invalid search result kind: "@, s@),
{
    if str_eq(s, "document") {
        Ok(SearchResultKind::Document)
    } else if str_eq(s, "feed_preview") {
        Ok(SearchResultKind::FeedPreview)
    } else {
        Err(unknown("invalid search result kind: ", s))
    }
}

/// Every [`SearchResultKind`] decodes back from its stored code.
pub proof fn lemma_search_result_kind_round_trip(v: SearchResultKind)
    ensures
        search_result_kind_from_text(search_result_kind_text(v)) == Some(v),
{
    match v {
        SearchResultKind::Document => {
            reveal_strlit("document");
        },
        SearchResultKind::FeedPreview => {
            reveal_strlit("feed_preview");
            reveal_strlit("document");
            assert("feed_preview"@.len() != "document"@.len());
        },
    }
}

/// A decoded code is the stored code of what it decodes to.
pub proof fn lemma_search_result_kind_decode_encodes(s: Seq<char>)
    ensures
        search_result_kind_from_text(s) matches Some(v) ==> search_result_kind_text(v) == s,
{
}

/// The kind of a named entity found in documents.
#[derive(Clone, Copy, Debug, PartialEq, Eq, Structural)]
pub enum EntityType {
    Person,
    Organization,
    Location,
    Event,
    Work,
}

/// The stored code of each [`EntityType`] variant.
pub open spec fn entity_type_text(v: EntityType) -> Seq<char> {
    match v {
        EntityType::Person => "person"@,
        EntityType::Organization => "organization"@,
        EntityType::Location => "location"@,
        EntityType::Event => "event"@,
        EntityType::Work => "work"@,
    }
}

/// The [`EntityType`] a stored code names, if any.
pub open spec fn entity_type_from_text(s: Seq<char>) -> Option<EntityType> {
    if s == "person"@ {
        Some(EntityType::Person)
    } else if s == "organization"@ {
        Some(EntityType::Organization)
    } else if s == "location"@ {
        Some(EntityType::Location)
    } else if s == "event"@ {
        Some(EntityType::Event)
    } else if s == "work"@ {
        Some(EntityType::Work)
    } else {
        None
    }
}

/// Decodes a stored [`EntityType`] code; any other text is an invariant violation.
pub fn parse_entity_type(s: &str) -> (r: Result<EntityType, AppError>)
    ensures
        r is Ok <==> entity_type_from_text(s@) is Some,
        r matches Ok(v) ==> entity_type_from_text(s@) == Some(v),
        r matches Err(e) ==> e@ == unknown_code("invalid entity type: "@, s@),
{
    if str_eq(s, "person") {
        Ok(EntityType::Person)
    } else if str_eq(s, "organization") {
        Ok(EntityType::Organization)
    } else if str_eq(s, "location") {
        Ok(EntityType::Location)
    } else if str_eq(s, "event") {
        Ok(EntityType::Event)
    } else if str_eq(s, "work") {
        Ok(EntityType::Work)
    } else {
        Err(unknown("invalid entity type: ", s))
    }
}

/// Every [`EntityType`] decodes back from its stored code.
pub proof fn lemma_entity_type_round_trip(v: EntityType)
    ensures
        entity_type_from_text(entity_type_text(v)) == Some(v),
{
    match v {
        EntityType::Person => {
            reveal_strlit("person");
        },
        EntityType::Organization => {
            reveal_strlit("organization");
            reveal_strlit("person");
            assert("organization"@.len() != "person"@.len());
        },
        EntityType::Location => {
            reveal_strlit("location");
            reveal_strlit("person");
            assert("location"@.len() != "person"@.len());
            reveal_strlit("organization");
            assert("location"@.len() != "organization"@.len());
        },
        EntityType::Event => {
            reveal_strlit("event");
            reveal_strlit("person");
            assert("event"@.len() != "person"@.len());
            reveal_strlit("organization");
            assert("event"@.len() != "organization"@.len());
            reveal_strlit("location");
            assert("event"@.len() != "location"@.len());
        },
        EntityType::Work => {
            reveal_strlit("work");
            reveal_strlit("person");
            assert("work"@.len() != "person"@.len());
            reveal_strlit("organization");
            assert("work"@.len() != "organization"@.len());
            reveal_strlit("location");
            assert("work"@.len() != "location"@.len());
            reveal_strlit("event");
            assert("work"@.len() != "event"@.len());
        },
    }
}

/// A decoded code is the stored code of what it decodes to.
pub proof fn lemma_entity_type_decode_encodes(s: Seq<char>)
    ensures
        entity_type_from_text(s) matches Some(v) ==> entity_type_text(v) == s,
{
}

/// Which kind of feed a public source search looks for.
#[derive(Clone, Copy, Debug, PartialEq, Eq, Structural)]
pub enum FeedSearchSurface {
    All,
    Rss,
    Youtube,
    Twitter,
}

/// The code a feed search surface is queried with.
pub open spec fn surface_text(v: FeedSearchSurface) -> Seq<char> {
    match v {
        FeedSearchSurface::All => "all"@,
        FeedSearchSurface::Rss => "rss"@,
        FeedSearchSurface::Youtube => "youtube"@,
        FeedSearchSurface::Twitter => "twitter"@,
    }
}

/// The code a feed search surface is queried with.
pub fn surface_to_str(v: FeedSearchSurface) -> (s: &'static str)
    ensures
        s@ == surface_text(v),
{
    match v {
        FeedSearchSurface::All => "all",
        FeedSearchSurface::Rss => "rss",
        FeedSearchSurface::Youtube => "youtube",
        FeedSearchSurface::Twitter => "twitter",
    }
}


/// The stored codes of [`FeedType`], one per variant, as the database holds them: `Rss` is stored as `rss`, `Atom` is stored as `atom`, `Podcast` is stored as `podcast`, `Youtube` is stored as `youtube`, `Twitter` is stored as `twitter`, `Newsletter` is stored as `newsletter`.
pub proof fn lemma_feed_type_codes()
    ensures
        feed_type_text(FeedType::Rss) == "rss"@,
        feed_type_text(FeedType::Atom) == "atom"@,
        feed_type_text(FeedType::Podcast) == "podcast"@,
        feed_type_text(FeedType::Youtube) == "youtube"@,
        feed_type_text(FeedType::Twitter) == "twitter"@,
        feed_type_text(FeedType::Newsletter) == "newsletter"@,
{
}

/// The stored codes of [`FeedVisibility`], one per variant, as the database holds them: `Public` is stored as `public`, `Private` is stored as `private`.
pub proof fn lemma_visibility_codes()
    ensures
        visibility_text(FeedVisibility::Public) == "public"@,
        visibility_text(FeedVisibility::Private) == "private"@,
{
}

/// The stored codes of [`OAuthProvider`], one per variant, as the database holds them: `Google` is stored as `google`, `Apple` is stored as `apple`, `Oidc` is stored as `oidc`.
pub proof fn lemma_oauth_provider_codes()
    ensures
        oauth_provider_text(OAuthProvider::Google) == "google"@,
        oauth_provider_text(OAuthProvider::Apple) == "apple"@,
        oauth_provider_text(OAuthProvider::Oidc) == "oidc"@,
{
}

/// The stored codes of [`IntegrationProvider`], one per variant, as the database holds them: `Obsidian` is stored as `obsidian`, `Notion` is stored as `notion`, `Logseq` is stored as `logseq`, `BrowserExtension` is stored as `browser_extension`, `EmailIngest` is stored as `email_ingest`.
pub proof fn lemma_integration_provider_codes()
    ensures
        integration_provider_text(IntegrationProvider::Obsidian) == "obsidian"@,
        integration_provider_text(IntegrationProvider::Notion) == "notion"@,
        integration_provider_text(IntegrationProvider::Logseq) == "logseq"@,
        integration_provider_text(IntegrationProvider::BrowserExtension) == "browser_extension"@,
        integration_provider_text(IntegrationProvider::EmailIngest) == "email_ingest"@,
{
}

/// The stored codes of [`IntegrationOAuthProvider`], one per variant, as the database holds them: `Notion` is stored as `notion`.
pub proof fn lemma_integration_oauth_provider_codes()
    ensures
        integration_oauth_provider_text(IntegrationOAuthProvider::Notion) == "notion"@,
{
}

/// The stored codes of [`MilaSessionType`], one per variant, as the database holds them: `SingleDocument` is stored as `single_document`, `CrossItem` is stored as `cross_item`, `Collection` is stored as `collection`.
pub proof fn lemma_session_type_codes()
    ensures
        session_type_text(MilaSessionType::SingleDocument) == "single_document"@,
        session_type_text(MilaSessionType::CrossItem) == "cross_item"@,
        session_type_text(MilaSessionType::Collection) == "collection"@,
{
}

/// The stored codes of [`MessageRole`], one per variant, as the database holds them: `User` is stored as `user`, `Assistant` is stored as `assistant`, `System` is stored as `system`.
pub proof fn lemma_message_role_codes()
    ensures
        message_role_text(MessageRole::User) == "user"@,
        message_role_text(MessageRole::Assistant) == "assistant"@,
        message_role_text(MessageRole::System) == "system"@,
{
}

/// The stored codes of [`ClientType`], one per variant, as the database holds them: `Web` is stored as `web`, `Ios` is stored as `ios`, `Android` is stored as `android`, `Desktop` is stored as `desktop`, `Extension` is stored as `extension`, `Cli` is stored as `cli`.
pub proof fn lemma_client_type_codes()
    ensures
        client_type_text(ClientType::Web) == "web"@,
        client_type_text(ClientType::Ios) == "ios"@,
        client_type_text(ClientType::Android) == "android"@,
        client_type_text(ClientType::Desktop) == "desktop"@,
        client_type_text(ClientType::Extension) == "extension"@,
        client_type_text(ClientType::Cli) == "cli"@,
{
}

/// The stored codes of [`ImportSource`], one per variant, as the database holds them: `ReadwiseImport` is stored as `readwise_import`, `NotionImport` is stored as `notion_import`.
pub proof fn lemma_import_source_codes()
    ensures
        import_source_text(ImportSource::ReadwiseImport) == "readwise_import"@,
        import_source_text(ImportSource::NotionImport) == "notion_import"@,
{
}

/// The stored codes of [`ImportMethod`], one per variant, as the database holds them: `Oauth` is stored as `oauth`, `Csv` is stored as `csv`, `Zip` is stored as `zip`.
pub proof fn lemma_import_method_codes()
    ensures
        import_method_text(ImportMethod::Oauth) == "oauth"@,
        import_method_text(ImportMethod::Csv) == "csv"@,
        import_method_text(ImportMethod::Zip) == "zip"@,
{
}

/// The stored codes of [`ImportJobStatus`], one per variant, as the database holds them: `AwaitingProvider` is stored as `awaiting_provider`, `Pending` is stored as `pending`, `Running` is stored as `running`, `Completed` is stored as `completed`, `Failed` is stored as `failed`, `Partial` is stored as `partial`, `RolledBack` is stored as `rolled_back`.
pub proof fn lemma_import_status_codes()
    ensures
        import_status_text(ImportJobStatus::AwaitingProvider) == "awaiting_provider"@,
        import_status_text(ImportJobStatus::Pending) == "pending"@,
        import_status_text(ImportJobStatus::Running) == "running"@,
        import_status_text(ImportJobStatus::Completed) == "completed"@,
        import_status_text(ImportJobStatus::Failed) == "failed"@,
        import_status_text(ImportJobStatus::Partial) == "partial"@,
        import_status_text(ImportJobStatus::RolledBack) == "rolled_back"@,
{
}

/// The stored codes of [`ImportItemOutcome`], one per variant, as the database holds them: `Imported` is stored as `imported`, `Updated` is stored as `updated`, `Duplicate` is stored as `duplicate`, `SkippedPrivate` is stored as `skipped_private`, `Failed` is stored as `failed`.
pub proof fn lemma_import_outcome_codes()
    ensures
        import_outcome_text(ImportItemOutcome::Imported) == "imported"@,
        import_outcome_text(ImportItemOutcome::Updated) == "updated"@,
        import_outcome_text(ImportItemOutcome::Duplicate) == "duplicate"@,
        import_outcome_text(ImportItemOutcome::SkippedPrivate) == "skipped_private"@,
        import_outcome_text(ImportItemOutcome::Failed) == "failed"@,
{
}

/// The stored codes of [`SearchDocumentKind`], one per variant, as the database holds them: `Item` is stored as `item`, `EpubChapter` is stored as `epub_chapter`.
pub proof fn lemma_search_document_kind_codes()
    ensures
        search_document_kind_text(SearchDocumentKind::Item) == "item"@,
        search_document_kind_text(SearchDocumentKind::EpubChapter) == "epub_chapter"@,
{
}

/// The stored codes of [`SearchSectionKind`], one per variant, as the database holds them: `Item` is stored as `item`, `EpubChapter` is stored as `epub_chapter`.
pub proof fn lemma_search_section_kind_codes()
    ensures
        search_section_kind_text(SearchSectionKind::Item) == "item"@,
        search_section_kind_text(SearchSectionKind::EpubChapter) == "epub_chapter"@,
{
}

/// The stored codes of [`SearchResultKind`], one per variant, as the database holds them: `Document` is stored as `document`, `FeedPreview` is stored as `feed_preview`.
pub proof fn lemma_search_result_kind_codes()
    ensures
        search_result_kind_text(SearchResultKind::Document) == "document"@,
        search_result_kind_text(SearchResultKind::FeedPreview) == "feed_preview"@,
{
}

/// The stored codes of [`EntityType`], one per variant, as the database holds them: `Person` is stored as `person`, `Organization` is stored as `organization`, `Location` is stored as `location`, `Event` is stored as `event`, `Work` is stored as `work`.
pub proof fn lemma_entity_type_codes()
    ensures
        entity_type_text(EntityType::Person) == "person"@,
        entity_type_text(EntityType::Organization) == "organization"@,
        entity_type_text(EntityType::Location) == "location"@,
        entity_type_text(EntityType::Event) == "event"@,
        entity_type_text(EntityType::Work) == "work"@,
{
}

/// The stored codes of [`FeedSearchSurface`], one per variant, as the database holds them: `All` is stored as `all`, `Rss` is stored as `rss`, `Youtube` is stored as `youtube`, `Twitter` is stored as `twitter`.
pub proof fn lemma_surface_codes()
    ensures
        surface_text(FeedSearchSurface::All) == "all"@,
        surface_text(FeedSearchSurface::Rss) == "rss"@,
        surface_text(FeedSearchSurface::Youtube) == "youtube"@,
        surface_text(FeedSearchSurface::Twitter) == "twitter"@,
{
}

} // verus!
