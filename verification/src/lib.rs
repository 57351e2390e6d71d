//! Keeps a local file in step with a remote bibliographic library.

pub mod export;
pub mod file_syncer;
pub mod text;
pub mod zotero_api;
