//! The names of the headers that this library sends and reads. Header names
//! do not depend on case; they are written here as the header map stores
//! them.

use vstd::prelude::*;

verus! {

/// Request header: the version of the service's interface that is spoken.
pub const ZOTERO_API_VERSION: &'static str = "zotero-api-version";

/// Request header: the credential.
pub const ZOTERO_API_KEY: &'static str = "zotero-api-key";

/// Response header: the library's current version.
pub const LAST_MODIFIED_VERSION: &'static str = "last-modified-version";

/// Request header: the version that the caller already holds.
pub const IF_MODIFIED_SINCE_VERSION: &'static str = "if-modified-since-version";

/// Response header: links to related pages.
pub const LINK: &'static str = "link";

} // verus!
