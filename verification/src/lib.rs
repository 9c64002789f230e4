//! Ingestion of content from external sources into normalized documents.
//!
//! A source is synced by a job; a connector fetches what the source holds and
//! turns it into normalized documents, which are handed on in one batch.

pub mod api;
pub mod clients;
pub mod clock;
pub mod codec;
pub mod config;
pub mod domain;
pub mod error;
pub mod ids;
pub mod json;
pub mod middleware;
pub mod storage;
pub mod text;
