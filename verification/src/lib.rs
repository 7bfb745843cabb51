//! Core of a small favicon registry: decoding and validating inbound asset
//! submissions, deduplicating them by content fingerprint, recording metadata
//! rows with a generation-status state machine, and gating destructive
//! operations behind an expiring-token admin session manager.

pub mod admin;
pub mod dataurl;
pub mod db;
pub mod error;
pub mod ident;
pub mod listing;
pub mod models;
pub mod multipart;
pub mod pipeline;
pub mod storage;
pub mod text;
pub mod validation;
