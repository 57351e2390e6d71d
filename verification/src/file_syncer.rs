//! The outcome of bringing the file up to date, under the names that the
//! callers of a file syncer know. Syncing a file and exporting to it are the
//! same work, so the names stand for the same types.

use crate::export::{ExportError, ExportSuccess};
use vstd::prelude::*;

verus! {

/// What a successful sync did to the file.
pub type SyncSuccess = ExportSuccess;

/// Why a sync failed.
pub type SyncError = ExportError;

} // verus!
