use reqwest::StatusCode;
use zotexon::zotero_api::api_key::{
    ApiKey, ApiKeyError, ApiKeyInfo, KeyAccessInfo, KeyUserAccessInfo,
};
use zotexon::zotero_api::builder::{
    default_headers, key_answered, key_info_url, key_refused, library_url, user_url,
    ClientBuildError,
};
use zotexon::zotero_api::types::ApiError;
use zotexon::zotero_api::ExportFormat;

fn key_info(library: bool) -> ApiKeyInfo {
    ApiKeyInfo {
        user_id: 13622011,
        username: "reader".to_string(),
        access: KeyAccessInfo {
            user: KeyUserAccessInfo { library },
        },
    }
}

#[test]
fn export_format_to_str() {
    assert_eq!(ExportFormat::Biblatex.to_string(), "biblatex");
    assert_eq!(ExportFormat::Bibtex.to_string(), "bibtex");
    assert_eq!(ExportFormat::Bibtex.as_str(), "bibtex");
    assert_eq!(ExportFormat::default(), ExportFormat::Biblatex);
}

#[test]
fn key_access_is_what_the_service_reports() {
    assert!(key_info(true).can_access_library());
    assert!(!key_info(false).can_access_library());
}

#[test]
fn default_headers_carry_version_and_key() {
    let headers = default_headers(&ApiKey("s3cr3t key".to_string())).unwrap();
    assert_eq!(headers.len(), 2);
    assert_eq!(headers.get("Zotero-API-Version").unwrap(), "3");
    assert_eq!(headers.get("Zotero-API-Key").unwrap(), "s3cr3t key");
    let headers = default_headers(&ApiKey("k\u{e9}y".to_string())).unwrap();
    assert_eq!(headers.get("zotero-api-key").unwrap().as_bytes(), "k\u{e9}y".as_bytes());
}

#[test]
fn key_with_a_control_character_makes_no_headers() {
    assert!(default_headers(&ApiKey("line\nbreak".to_string())).is_none());
    assert!(default_headers(&ApiKey("del\u{7f}".to_string())).is_none());
    assert!(default_headers(&ApiKey("tab\tis fine".to_string())).is_some());
}

#[test]
fn addresses() {
    assert_eq!(key_info_url(), "https://api.zotero.org/keys/current");
    assert_eq!(user_url(13622011), "https://api.zotero.org/users/13622011");
    assert_eq!(user_url(0), "https://api.zotero.org/users/0");
}

#[test]
fn only_status_ok_answers_the_question_about_the_key() {
    assert!(key_answered(&StatusCode::OK));
    assert!(!key_answered(&StatusCode::FORBIDDEN));
    assert!(!key_answered(&StatusCode::NOT_MODIFIED));
    match key_refused(StatusCode::FORBIDDEN, Ok("Invalid key".to_string())) {
        ClientBuildError::ApiError(ApiError::UnexpectedStatus { status, body }) => {
            assert_eq!(status, StatusCode::FORBIDDEN);
            assert_eq!(body, "Invalid key");
        }
        _ => panic!("an unexpected status was expected"),
    }
}

#[test]
fn key_without_library_access_cannot_be_used() {
    assert!(matches!(
        library_url(&key_info(false)),
        Err(ClientBuildError::ApiKeyError(
            ApiKeyError::InsufficientRights
        ))
    ));
    assert_eq!(
        library_url(&key_info(true)).ok(),
        Some("https://api.zotero.org/users/13622011".to_string())
    );
}
