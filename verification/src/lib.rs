//! Verified core of the persistence layer: SQL fragment assembly for the
//! Library filter language, row codecs, and the decision logic of the
//! repositories. The database round trips themselves live outside.

pub mod error;
pub mod text;
pub mod sql;
pub mod json;
pub mod outside;
pub mod filter_sql;
pub mod library_filters;
pub mod paging;
pub mod library_query;
pub mod id_sets;
pub mod obsidian_export;
pub mod search_reindex;
pub mod outbox_handoff;
pub mod codecs;
pub mod library_writes;
pub mod feed;
pub mod grouping;
pub mod mila;
pub mod integrations;
pub mod import_jobs;
pub mod tags;
pub mod search;
pub mod accounts;
