//! Setting up a client: the headers that carry the credential, the addresses
//! that belong to a user, and whether a key may be used at all.

use crate::text::{append_decimal, decimal};
use crate::zotero_api::api_key::{ApiKey, ApiKeyError, ApiKeyInfo};
use crate::zotero_api::client::UserId;
use crate::zotero_api::headers::{ZOTERO_API_KEY, ZOTERO_API_VERSION};
use crate::zotero_api::http::{
    header_first_values, header_map_insert, header_map_new, header_value_from_str,
    is_header_value_byte, no_headers, status_code_number, status_number,
};
use crate::zotero_api::types::{ApiError, ApiFailure};
use crate::zotero_api::API_BASE_URL;
use reqwest::header::HeaderMap;
use reqwest::StatusCode;
use vstd::prelude::*;
use vstd::string::*;
use vstd::utf8::encode_utf8;

verus! {

/// The version of the service's interface that this library speaks.
pub const API_VERSION: &'static str = "3";

/// Why a client could not be set up.
#[derive(Debug)]
pub enum ClientBuildError {
    /// The service could not be asked about the key, or refused.
    ApiError(ApiError),
    /// The key cannot be used.
    ApiKeyError(ApiKeyError),
}

/// Whether every byte of `bytes` may stand in a header value.
pub open spec fn is_header_value(bytes: Seq<u8>) -> bool {
    forall|i: int| 0 <= i < bytes.len() ==> is_header_value_byte(#[trigger] bytes[i])
}

/// The headers that every request of a client carries: the interface version
/// and the credential.
pub open spec fn default_values(api_key: Seq<char>) -> Map<Seq<char>, Seq<u8>> {
    no_headers().insert(ZOTERO_API_VERSION@, encode_utf8(API_VERSION@)).insert(
        ZOTERO_API_KEY@,
        encode_utf8(api_key),
    )
}

/// Builds the headers that every request of a client carries. There are
/// none where the key holds a byte that no header value can hold.
pub fn default_headers(api_key: &ApiKey) -> (headers: Option<HeaderMap>)
    ensures
        headers is Some <==> is_header_value(encode_utf8(api_key.0@)),
        headers matches Some(h) ==> header_first_values(h) == default_values(api_key.0@),
{
    let version = header_value_from_str(API_VERSION);
    let key = header_value_from_str(api_key.0.as_str());
    proof {
        reveal_strlit("3");
        reveal_strlit("zotero-api-version");
        reveal_strlit("zotero-api-key");
        vstd::string::is_ascii_spec_bytes(API_VERSION);
        assert(is_header_value(API_VERSION.spec_bytes()));
    }
    match (version, key) {
        (Some(version), Some(key)) => {
            let mut headers = header_map_new();
            proof {
                assert(no_headers().dom() =~= Set::<Seq<char>>::empty());
            }
            header_map_insert(&mut headers, ZOTERO_API_VERSION, version);
            proof {
                assert(header_first_values(headers).dom() =~= set![ZOTERO_API_VERSION@]);
            }
            header_map_insert(&mut headers, ZOTERO_API_KEY, key);
            Some(headers)
        },
        _ => None,
    }
}

/// The address that tells what the key in use may do.
pub open spec fn key_info_address() -> Seq<char> {
    API_BASE_URL@ + "/keys/current"@
}

/// The address that tells what the key in use may do.
pub fn key_info_url() -> (url: String)
    ensures
        url@ == key_info_address(),
{
    String::from_str(API_BASE_URL).concat("/keys/current")
}

/// The address under which a user's library lives.
pub open spec fn user_address(user_id: UserId) -> Seq<char> {
    API_BASE_URL@ + "/users/"@ + decimal(user_id as nat)
}

/// The address under which a user's library lives.
pub fn user_url(user_id: UserId) -> (url: String)
    ensures
        url@ == user_address(user_id),
{
    let url = String::from_str(API_BASE_URL).concat("/users/");
    append_decimal(url, user_id)
}

/// Whether the service answered the question about the key at all: only the
/// status "ok" carries an answer.
pub fn key_answered(status: &StatusCode) -> (answered: bool)
    ensures
        answered == (status_code_number(*status) == 200),
{
    status_number(status) == 200
}

/// The error for a question about the key that the service refused. A body
/// that could not be read counts as empty.
pub fn key_refused(status: StatusCode, body: Result<String, reqwest::Error>) -> (error:
    ClientBuildError)
    ensures
        error matches ClientBuildError::ApiError(ApiError::UnexpectedStatus { status: s, body: b })
            && s == status && b@ == (match body {
            Ok(text) => text@,
            Err(_) => Seq::<char>::empty(),
        }),
{
    let body = match body {
        Ok(text) => text,
        Err(_) => String::new(),
    };
    ClientBuildError::ApiError(ApiError::UnexpectedStatus { status, body })
}

/// Decides whether the key may be used: it has to grant access to the user's
/// library. Where it does, the result is the address of that library.
pub fn library_url(key_info: &ApiKeyInfo) -> (url: Result<String, ClientBuildError>)
    ensures
        key_info.can_access_library() ==> (url matches Ok(u) && u@ == user_address(
            key_info.user_id,
        )),
        !key_info.can_access_library() ==> url == Err::<String, ClientBuildError>(
            ClientBuildError::ApiKeyError(ApiKeyError::InsufficientRights),
        ),
{
    if key_info.can_access_library() {
        Ok(user_url(key_info.user_id))
    } else {
        Err(ClientBuildError::ApiKeyError(ApiKeyError::InsufficientRights))
    }
}

} // verus!
