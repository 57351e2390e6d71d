use zotexon::export::headline::FileHeadline;
use zotexon::export::{
    after_fetch, after_write, compose_file_content, export_mode, fetch_params,
    read_file_checkpoint, try_read_file_headline, ExportError, ExportMode, ExportRun, ExportStep, ExportSuccess,
    LoopAction, LoopEvent,
};
use zotexon::zotero_api::types::{ApiError, FetchItemsResponse};
use zotexon::file_syncer::{SyncError, SyncSuccess};
use zotexon::zotero_api::ExportFormat;

const HEADLINE_7: &str =
    "% *** THIS FILE WAS AUTO-GENERATED BY ZOTEX - DO NOT EDIT ***Last-Modified-Version: 7";

fn first_line(content: &str) -> &str {
    match content.find('\n') {
        Some(i) => &content[..=i],
        None => content,
    }
}

fn checkpoint(content: &str) -> Option<u64> {
    read_file_checkpoint(content).map(|h| h.last_modified_version)
}

/// One cycle against a remote library at `version` with `payload`.
fn sync_once(content: String, version: u64, payload: &str) -> (String, ExportSuccess) {
    let params = fetch_params(
        try_read_file_headline(first_line(&content)),
        ExportFormat::Biblatex,
    );
    let response = match params.last_modified_version {
        Some(since) if since >= version => FetchItemsResponse::UpToDate,
        _ => FetchItemsResponse::Updated {
            last_modified_version: version,
            text: payload.to_string(),
        },
    };
    match after_fetch(Ok(response)) {
        ExportStep::Done(outcome) => (content, outcome.unwrap()),
        ExportStep::Write { content } => (content, after_write("out.bib", Ok(())).unwrap()),
    }
}

#[test]
fn file_content_is_headline_line_feed_payload() {
    let content = compose_file_content(
        FileHeadline {
            last_modified_version: 7,
        },
        "@book{a}\n@book{b}\n",
    );
    assert_eq!(content, format!("{}\n@book{{a}}\n@book{{b}}\n", HEADLINE_7));
}

#[test]
fn what_is_asked_for_follows_the_checkpoint() {
    let params = fetch_params(
        Some(FileHeadline {
            last_modified_version: 9,
        }),
        ExportFormat::Bibtex,
    );
    assert_eq!(params.last_modified_version, Some(9));
    assert_eq!(params.format, ExportFormat::Bibtex);
    let params = fetch_params(None, ExportFormat::Biblatex);
    assert_eq!(params.last_modified_version, None);
}

#[test]
fn up_to_date_ends_the_cycle_without_a_write() {
    assert!(matches!(
        after_fetch(Ok(FetchItemsResponse::UpToDate)),
        ExportStep::Done(Ok(ExportSuccess::NoChanges))
    ));
}

#[test]
fn change_is_written_under_its_version() {
    let step = after_fetch(Ok(FetchItemsResponse::Updated {
        last_modified_version: 8,
        text: "payload\nwith lines\n".to_string(),
    }));
    match step {
        ExportStep::Write { content } => {
            assert_eq!(checkpoint(&content), Some(8));
            assert_eq!(&content[first_line(&content).len()..], "payload\nwith lines\n");
        }
        _ => panic!("a write was expected"),
    }
}

#[test]
fn failed_fetch_ends_the_cycle_without_a_write() {
    assert!(matches!(
        after_fetch(Err(ApiError::Cancelled)),
        ExportStep::Done(Err(ExportError::ClientError(ApiError::Cancelled)))
    ));
}

#[test]
fn write_outcome_decides_how_the_cycle_ends() {
    assert!(matches!(
        after_write("out.bib", Ok(())),
        Ok(ExportSuccess::Changes)
    ));
    let denied = std::io::Error::new(std::io::ErrorKind::PermissionDenied, "denied");
    match after_write("/no/such/out.bib", Err(denied)) {
        Err(ExportError::FileError {
            file_path,
            io_error,
        }) => {
            assert_eq!(file_path, "/no/such/out.bib");
            assert_eq!(io_error.kind(), std::io::ErrorKind::PermissionDenied);
        }
        _ => panic!("a file error was expected"),
    }
}

#[test]
fn second_sync_without_remote_change_leaves_the_file_alone() {
    let (first, outcome) = sync_once(String::new(), 12, "payload");
    assert_eq!(outcome, ExportSuccess::Changes);
    let (second, outcome) = sync_once(first.clone(), 12, "payload");
    assert_eq!(outcome, ExportSuccess::NoChanges);
    assert_eq!(first, second);
}

#[test]
fn remote_change_is_taken_over() {
    let (first, _) = sync_once("some foreign text\n".to_string(), 12, "old");
    assert_eq!(checkpoint(&first), Some(12));
    let (second, outcome) = sync_once(first, 13, "new");
    assert_eq!(outcome, ExportSuccess::Changes);
    assert_eq!(checkpoint(&second), Some(13));
    assert!(second.ends_with("\nnew"));
}

#[test]
fn interval_chooses_the_mode() {
    assert_eq!(export_mode(None), ExportMode::Once);
    assert_eq!(export_mode(Some(0)), ExportMode::Once);
    assert_eq!(export_mode(Some(1)), ExportMode::Periodic { seconds: 1 });
    assert_eq!(export_mode(Some(3600)), ExportMode::Periodic { seconds: 3600 });
}

#[test]
fn run_reports_whether_any_cycle_changed_the_file() {
    let run = ExportRun::new();
    assert_eq!(run.on_event(LoopEvent::Start), LoopAction::RunCycle);
    assert_eq!(run.on_event(LoopEvent::Signal), LoopAction::RunCycle);
    assert_eq!(
        run.on_event(LoopEvent::Cancelled),
        LoopAction::Finish(ExportSuccess::NoChanges)
    );
    let run = run.record_cycle(Ok(ExportSuccess::NoChanges)).unwrap();
    assert_eq!(run.finish(), ExportSuccess::NoChanges);
    let run = run.record_cycle(Ok(ExportSuccess::Changes)).unwrap();
    let run = run.record_cycle(Ok(ExportSuccess::NoChanges)).unwrap();
    assert_eq!(run.finish(), ExportSuccess::Changes);
    assert_eq!(
        run.on_event(LoopEvent::Ended),
        LoopAction::Finish(ExportSuccess::Changes)
    );
}

#[test]
fn failed_cycle_aborts_the_run() {
    let run = ExportRun::new()
        .record_cycle(Ok(ExportSuccess::Changes))
        .unwrap();
    let aborted = run.record_cycle(Err(ExportError::ClientError(ApiError::Cancelled)));
    assert!(matches!(
        aborted,
        Err(ExportError::ClientError(ApiError::Cancelled))
    ));
}

#[test]
fn checkpoint_is_read_from_the_first_line_only() {
    assert_eq!(checkpoint(HEADLINE_7), Some(7));
    assert_eq!(checkpoint(&format!("{}\n", HEADLINE_7)), Some(7));
    assert_eq!(checkpoint(&format!("  {}  \r\npayload", HEADLINE_7)), Some(7));
    assert_eq!(checkpoint(&format!("\n{}\n", HEADLINE_7)), None);
    assert_eq!(checkpoint(&format!("@book{{a}}\n{}\n", HEADLINE_7)), None);
    assert_eq!(checkpoint(""), None);
}

#[test]
fn sync_names_stand_for_the_export_types() {
    let outcome: Result<SyncSuccess, SyncError> = after_write("out.bib", Ok(()));
    assert!(matches!(outcome, Ok(SyncSuccess::Changes)));
    let unchanged: SyncSuccess = ExportSuccess::NoChanges;
    assert_eq!(unchanged, SyncSuccess::NoChanges);
    let failed: SyncError = SyncError::ClientError(ApiError::Cancelled);
    assert!(matches!(
        failed,
        ExportError::ClientError(ApiError::Cancelled)
    ));
}
