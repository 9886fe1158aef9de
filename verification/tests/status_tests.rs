use muku::status::{
    check_retry, download_total, progress_due, format_error_chain, init_step, range_request_value, ready_wait_check,
    InitCommand, InitEvent, LlmStatus,
};

fn error_message(s: &Option<LlmStatus>) -> Option<String> {
    match s {
        Some(LlmStatus::Error { message }) => Some(message.clone()),
        _ => None,
    }
}

#[test]
fn start_up_happy_path_with_download() {
    let s = init_step(InitEvent::Begin);
    assert!(matches!(s.emit, Some(LlmStatus::Checking)));
    assert_eq!(s.next, InitCommand::CheckModel);
    let s = init_step(InitEvent::ModelChecked { exists: false });
    assert!(s.emit.is_none());
    assert_eq!(s.next, InitCommand::Download);
    let s = init_step(InitEvent::Downloaded(Ok(())));
    assert!(matches!(s.emit, Some(LlmStatus::ModelLoading)));
    assert_eq!(s.next, InitCommand::SpawnServer);
    let s = init_step(InitEvent::Spawned(Ok(())));
    assert!(s.emit.is_none());
    assert_eq!(s.next, InitCommand::WaitReady);
    let s = init_step(InitEvent::ServerReady(Ok(())));
    assert!(matches!(s.emit, Some(LlmStatus::Ready)));
    assert_eq!(s.next, InitCommand::Finish);
}

#[test]
fn start_up_with_model_present_skips_download() {
    let s = init_step(InitEvent::ModelChecked { exists: true });
    assert!(matches!(s.emit, Some(LlmStatus::ModelLoading)));
    assert_eq!(s.next, InitCommand::SpawnServer);
}

#[test]
fn start_up_failures_report_their_phase() {
    let s = init_step(InitEvent::Downloaded(Err("HTTP 404 Not Found".into())));
    assert_eq!(error_message(&s.emit).as_deref(), Some("モデルのダウンロードに失敗しました: HTTP 404 Not Found"));
    assert_eq!(s.next, InitCommand::Finish);
    let s = init_step(InitEvent::Spawned(Err("file not found".into())));
    assert_eq!(error_message(&s.emit).as_deref(), Some("llama-server を起動できません: file not found"));
    assert_eq!(s.next, InitCommand::Finish);
    let s = init_step(InitEvent::ServerReady(Err("タイムアウト".into())));
    assert_eq!(error_message(&s.emit).as_deref(), Some("モデルのロードに失敗しました: タイムアウト"));
    assert_eq!(s.next, InitCommand::Finish);
}

#[test]
fn retry_only_from_error() {
    assert_eq!(check_retry(&LlmStatus::Error { message: "x".into() }), Ok(()));
    for s in [
        LlmStatus::Checking,
        LlmStatus::ModelLoading,
        LlmStatus::Ready,
        LlmStatus::Downloading { downloaded: 1, total: 2 },
    ] {
        assert_eq!(check_retry(&s), Err("already initializing or ready".to_string()));
    }
}

#[test]
fn ready_wait_gives_up_after_300_seconds() {
    assert_eq!(ready_wait_check(0), Ok(()));
    assert_eq!(ready_wait_check(300_000_000_000), Ok(()));
    assert_eq!(ready_wait_check(300_000_000_001), Err("タイムアウト".to_string()));
}

#[test]
fn error_chain_joined() {
    assert_eq!(format_error_chain("top", &[]), "top");
    assert_eq!(
        format_error_chain("error sending request", &["connection refused".to_string(), "os error 111".to_string()]),
        "error sending request | caused by: connection refused | caused by: os error 111"
    );
}

#[test]
fn resume_header() {
    assert_eq!(range_request_value(0), None);
    assert_eq!(range_request_value(1024), Some("bytes=1024-".to_string()));
}

#[test]
fn total_size_of_download() {
    assert_eq!(download_total(Some(Some("bytes 100-999/1000")), Some(900), 100), 1000);
    assert_eq!(download_total(Some(Some("bytes 0-99/*")), Some(100), 0), 0);
    assert_eq!(download_total(Some(None), Some(100), 0), 0);
    assert_eq!(download_total(None, Some(900), 100), 1000);
    assert_eq!(download_total(None, None, 100), 100);
}

#[test]
fn download_progress_every_quarter_second() {
    assert!(!progress_due(0));
    assert!(!progress_due(249_999_999));
    assert!(progress_due(250_000_000));
    assert!(progress_due(u128::MAX));
}
