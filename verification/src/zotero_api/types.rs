//! What a fetch is asked for, what it answers, and how it fails.

use crate::zotero_api::http::status_code_number;
use crate::zotero_api::ExportFormat;
use reqwest::StatusCode;
use vstd::prelude::*;

verus! {

/// Input for a request to fetch items from the remote library.
pub struct FetchItemsParams {
    /// Version of the library at the time of the last export.
    pub last_modified_version: Option<u64>,
    /// Format in which the library should be exported.
    pub format: ExportFormat,
}

/// The happy path response when fetching items.
pub enum FetchItemsResponse {
    /// No updates since last fetch.
    UpToDate,
    /// New or updated items are available.
    Updated { last_modified_version: u64, text: String },
}

/// A `FetchItemsResponse` with its text as a sequence of characters.
pub enum FetchedItems {
    UpToDate,
    Updated { last_modified_version: u64, text: Seq<char> },
}

impl View for FetchItemsResponse {
    type V = FetchedItems;

    open spec fn view(&self) -> FetchedItems {
        match self {
            FetchItemsResponse::UpToDate => FetchedItems::UpToDate,
            FetchItemsResponse::Updated { last_modified_version, text } => FetchedItems::Updated {
                last_modified_version: *last_modified_version,
                text: text@,
            },
        }
    }
}

/// Errors that can occur when interacting with the remote library.
#[derive(Debug)]
pub enum ApiError {
    /// The transport failed.
    HttpError(reqwest::Error),
    /// The service answered with a status that is neither "ok" nor "not
    /// modified".
    UnexpectedStatus { status: StatusCode, body: String },
    /// The operation was cancelled.
    Cancelled,
}

/// An `ApiError` with its status as a number and its text as a sequence of
/// characters.
pub enum ApiFailure {
    HttpError(reqwest::Error),
    UnexpectedStatus { status: u16, body: Seq<char> },
    Cancelled,
}

impl View for ApiError {
    type V = ApiFailure;

    open spec fn view(&self) -> ApiFailure {
        match self {
            ApiError::HttpError(e) => ApiFailure::HttpError(*e),
            ApiError::UnexpectedStatus { status, body } => ApiFailure::UnexpectedStatus {
                status: status_code_number(*status),
                body: body@,
            },
            ApiError::Cancelled => ApiFailure::Cancelled,
        }
    }
}

/// The view of what a fetch returns, success or failure.
pub open spec fn fetch_result_view(result: Result<FetchItemsResponse, ApiError>) -> Result<
    FetchedItems,
    ApiFailure,
> {
    match result {
        Ok(response) => Ok(response@),
        Err(error) => Err(error@),
    }
}

} // verus!
