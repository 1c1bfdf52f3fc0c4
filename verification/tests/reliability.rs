use ai_pendrive_launcher::catalog::{Model, RuntimeProfile};
use ai_pendrive_launcher::download::{
    cancel_step, download_step, range_header, CancelAction, CancelEvent, CancelFailure, CancelOutcome, CancelState,
    DownloadAction, DownloadEvent, DownloadFailure, DownloadOutcome, DownloadState,
};
use ai_pendrive_launcher::verify::{verify_step, VerifyAction, VerifyEvent, VerifyFailure, VerifyState};

const DIGEST: &str = "9f86d081884c7d659a2feaa0c55ad015a3bf4f1b2b0b822cd15d6c15b0f00a08";

fn model(sha256: &str) -> Model {
    Model {
        id: "example-light-cpu".to_string(),
        name: "Example light".to_string(),
        description: "test profile".to_string(),
        filename: "example-light.gguf".to_string(),
        url: "https://example.invalid/example-light.gguf".to_string(),
        sha256: sha256.to_string(),
        size_bytes: 100,
        min_memory_bytes: 0,
        min_free_disk_bytes: 0,
        min_vram_bytes: None,
        supported_os: vec!["linux".to_string()],
        supported_arch: vec!["x86_64".to_string()],
        runtime_profile: RuntimeProfile::Cpu,
        enabled: true,
    }
}

fn step(m: &Model, state: DownloadState, event: DownloadEvent) -> (DownloadState, Vec<DownloadAction>) {
    download_step(m, &state, event)
}

fn to_receiving(m: &Model, existing: u64, status: u16, content_length: Option<&str>) -> (DownloadState, Vec<DownloadAction>) {
    let (s, _) = step(m, DownloadState::AwaitPartialSize, DownloadEvent::PartialMeasured { length: existing });
    step(
        m,
        s,
        DownloadEvent::Responded { status, accept_ranges: true, content_length: content_length.map(str::to_string) },
    )
}

#[test]
fn cancellation_removes_only_partial_download() {
    let m = model(DIGEST);
    let (s, a) = cancel_step(&m, &CancelState::Start, CancelEvent::Begin);
    assert!(matches!(a.as_slice(), [CancelAction::CheckModel]));
    let (s, a) = cancel_step(&m, &s, CancelEvent::ModelChecked { exists: false });
    assert!(matches!(a.as_slice(), [CancelAction::AcquireLock]));
    let (s, a) = cancel_step(&m, &s, CancelEvent::LockAttempted { acquired: true });
    assert!(matches!(a.as_slice(), [CancelAction::CheckPartial]));
    let (s, a) = cancel_step(&m, &s, CancelEvent::PartialChecked { exists: true });
    assert!(matches!(
        a.as_slice(),
        [CancelAction::RemovePartial, CancelAction::ReportRemoved, CancelAction::LogCancelled, CancelAction::ReleaseLock]
    ));
    assert!(matches!(s, CancelState::Done(CancelOutcome::Removed)));
}

#[test]
fn cancellation_refuses_when_the_model_is_complete() {
    let m = model(DIGEST);
    let (s, _) = cancel_step(&m, &CancelState::Start, CancelEvent::Begin);
    let (s, a) = cancel_step(&m, &s, CancelEvent::ModelChecked { exists: true });
    assert!(a.is_empty());
    assert!(matches!(&s, CancelState::Failed(CancelFailure::CompletedModelPresent { id }) if id == "example-light-cpu"));
    let (s2, a2) = cancel_step(&m, &s, CancelEvent::PartialChecked { exists: true });
    assert!(a2.is_empty());
    assert!(matches!(s2, CancelState::Failed(_)));
}

#[test]
fn cancellation_with_nothing_to_remove_or_busy_lock() {
    let m = model(DIGEST);
    let (s, a) = cancel_step(&m, &CancelState::AwaitPartialCheck, CancelEvent::PartialChecked { exists: false });
    assert!(matches!(a.as_slice(), [CancelAction::ReportNothingToRemove, CancelAction::ReleaseLock]));
    assert!(matches!(s, CancelState::Done(CancelOutcome::NothingToRemove)));
    let (s, a) = cancel_step(&m, &CancelState::AwaitLock, CancelEvent::LockAttempted { acquired: false });
    assert!(a.is_empty());
    assert!(matches!(s, CancelState::Failed(CancelFailure::Busy { .. })));
}

#[test]
fn placeholder_digest_is_never_downloaded() {
    let m = model(&"0".repeat(64));
    let (s, a) = step(&m, DownloadState::Start, DownloadEvent::Begin);
    assert!(a.is_empty());
    assert!(matches!(&s, DownloadState::Failed(DownloadFailure::PlaceholderDigest { id }) if id == "example-light-cpu"));
    let short = model("abc");
    let (s, _) = step(&short, DownloadState::Start, DownloadEvent::Begin);
    assert!(matches!(s, DownloadState::Failed(DownloadFailure::PlaceholderDigest { .. })));
    let (s, a) = step(&model(DIGEST), DownloadState::Start, DownloadEvent::Begin);
    assert!(matches!(s, DownloadState::AwaitDestination));
    assert!(matches!(a.as_slice(), [DownloadAction::CheckDestination]));
}

#[test]
fn existing_model_is_verified_not_downloaded_again() {
    let m = model(DIGEST);
    let (s, a) = step(&m, DownloadState::AwaitDestination, DownloadEvent::DestinationChecked { exists: true });
    assert!(matches!(a.as_slice(), [DownloadAction::VerifyExisting]));
    let (done, a) = step(&m, s, DownloadEvent::ExistingVerified { result: Ok(()) });
    assert!(matches!(done, DownloadState::Done(DownloadOutcome::AlreadyPresent)));
    assert!(matches!(a.as_slice(), [DownloadAction::ReportAlreadyPresent]));
    let (s, a) = step(&m, DownloadState::AwaitDestination, DownloadEvent::DestinationChecked { exists: false });
    assert!(matches!(s, DownloadState::AwaitLock));
    assert!(matches!(a.as_slice(), [DownloadAction::CreateModelsDir, DownloadAction::AcquireLock]));
}

#[test]
fn busy_lock_stops_the_download() {
    let m = model(DIGEST);
    let (s, a) = step(&m, DownloadState::AwaitLock, DownloadEvent::LockAttempted { acquired: false });
    assert!(a.is_empty());
    assert!(matches!(s, DownloadState::Failed(DownloadFailure::Busy { .. })));
}

#[test]
fn oversized_partial_is_removed() {
    let m = model(DIGEST);
    let (s, a) = step(&m, DownloadState::AwaitPartialSize, DownloadEvent::PartialMeasured { length: 101 });
    assert!(matches!(s, DownloadState::Failed(DownloadFailure::PartialTooLarge)));
    assert!(matches!(a.as_slice(), [DownloadAction::RemovePartial, DownloadAction::ReleaseLock]));
}

#[test]
fn resume_sends_a_range_request() {
    let m = model(DIGEST);
    let (s, a) = step(&m, DownloadState::AwaitPartialSize, DownloadEvent::PartialMeasured { length: 40 });
    assert!(matches!(s, DownloadState::AwaitResponse { existing: 40 }));
    assert!(matches!(
        a.as_slice(),
        [DownloadAction::PrepareClient, DownloadAction::LogStarted { existing: 40 }, DownloadAction::SendRequest { resume_from: Some(40) }]
    ));
    assert_eq!(range_header(40), "bytes=40-");
    assert_eq!(range_header(0), "bytes=0-");
    assert_eq!(range_header(18446744073709551615), "bytes=18446744073709551615-");
    let (_, a) = step(&m, DownloadState::AwaitPartialSize, DownloadEvent::PartialMeasured { length: 0 });
    assert!(matches!(a.last(), Some(DownloadAction::SendRequest { resume_from: None })));
}

#[test]
fn honoured_range_appends() {
    let m = model(DIGEST);
    let (s, a) = to_receiving(&m, 40, 206, Some("60"));
    assert!(matches!(s, DownloadState::Receiving { received: 40 }));
    assert!(matches!(
        a.as_slice(),
        [DownloadAction::OpenOutput { append: true }, DownloadAction::AnnounceDownload { resuming: true }]
    ));
}

#[test]
fn ignored_range_restarts_from_zero() {
    let m = model(DIGEST);
    let (s, a) = to_receiving(&m, 40, 200, Some("100"));
    assert!(matches!(s, DownloadState::Receiving { received: 0 }));
    assert!(matches!(
        a.as_slice(),
        [
            DownloadAction::LogRangeIgnored,
            DownloadAction::RemovePartial,
            DownloadAction::OpenOutput { append: false },
            DownloadAction::AnnounceDownload { resuming: false }
        ]
    ));
}

#[test]
fn declared_length_must_add_up() {
    let m = model(DIGEST);
    let (s, a) = to_receiving(&m, 0, 200, Some("99"));
    assert!(matches!(&s, DownloadState::Failed(DownloadFailure::LengthMismatch { id }) if id == "example-light-cpu"));
    assert!(matches!(a.as_slice(), [DownloadAction::ReleaseLock]));
    let (s, _) = to_receiving(&m, 0, 200, Some("+100"));
    assert!(matches!(s, DownloadState::Receiving { received: 0 }));
    let (s, _) = to_receiving(&m, 0, 200, Some("not a number"));
    assert!(matches!(s, DownloadState::Receiving { received: 0 }));
    let (s, _) = to_receiving(&m, 40, 206, Some("18446744073709551615"));
    assert!(matches!(s, DownloadState::Failed(DownloadFailure::LengthMismatch { .. })));
}

#[test]
fn error_status_fails_and_releases_the_lock() {
    let m = model(DIGEST);
    let (s, a) = to_receiving(&m, 0, 404, None);
    assert!(matches!(s, DownloadState::Failed(DownloadFailure::HttpStatus { status: 404 })));
    assert!(matches!(a.as_slice(), [DownloadAction::ReleaseLock]));
    let (s, _) = to_receiving(&m, 0, 503, None);
    assert!(matches!(s, DownloadState::Failed(DownloadFailure::HttpStatus { status: 503 })));
    let (s, _) = to_receiving(&m, 0, 304, None);
    assert!(matches!(s, DownloadState::Receiving { received: 0 }));
}

#[test]
fn complete_download_is_hashed_then_promoted() {
    let m = model(DIGEST);
    let (s, a) = step(&m, DownloadState::Receiving { received: 60 }, DownloadEvent::Received { length: 40 });
    assert!(matches!(s, DownloadState::Receiving { received: 100 }));
    assert!(matches!(a.as_slice(), [DownloadAction::WriteChunk, DownloadAction::ReportProgress { received: 100 }]));
    let (s, a) = step(&m, s, DownloadEvent::StreamEnded);
    assert!(matches!(s, DownloadState::AwaitDigest));
    assert!(matches!(a.as_slice(), [DownloadAction::SyncOutput, DownloadAction::HashPartial]));
    let (s, a) = step(&m, s, DownloadEvent::Digested { actual: DIGEST.to_uppercase() });
    assert!(matches!(s, DownloadState::Done(DownloadOutcome::Downloaded)));
    assert!(matches!(
        a.as_slice(),
        [DownloadAction::PromotePartial, DownloadAction::LogVerified, DownloadAction::ReportSaved, DownloadAction::ReleaseLock]
    ));
}

#[test]
fn short_download_is_kept_for_resume() {
    let m = model(DIGEST);
    let (s, a) = step(&m, DownloadState::Receiving { received: 99 }, DownloadEvent::StreamEnded);
    assert!(matches!(s, DownloadState::Failed(DownloadFailure::Incomplete { expected: 100, received: 99 })));
    assert!(matches!(a.as_slice(), [DownloadAction::SyncOutput, DownloadAction::ReleaseLock]));
}

#[test]
fn digest_mismatch_keeps_the_partial() {
    let m = model(DIGEST);
    let (s, a) = step(&m, DownloadState::AwaitDigest, DownloadEvent::Digested { actual: "00".repeat(32) });
    assert!(matches!(a.as_slice(), [DownloadAction::LogHashMismatch, DownloadAction::ReleaseLock]));
    match s {
        DownloadState::Failed(DownloadFailure::DigestMismatch { id, expected, actual }) => {
            assert_eq!(id, "example-light-cpu");
            assert_eq!(expected, DIGEST);
            assert_eq!(actual, "00".repeat(32));
        }
        _ => panic!("expected a digest mismatch"),
    }
}

#[test]
fn io_failure_releases_a_held_lock_only() {
    let m = model(DIGEST);
    let (s, a) = step(&m, DownloadState::Receiving { received: 5 }, DownloadEvent::IoFailed);
    assert!(matches!(s, DownloadState::Interrupted));
    assert!(matches!(a.as_slice(), [DownloadAction::ReleaseLock]));
    let (s, a) = step(&m, DownloadState::AwaitLock, DownloadEvent::IoFailed);
    assert!(matches!(s, DownloadState::Interrupted));
    assert!(a.is_empty());
    let (s, a) = step(&m, DownloadState::Done(DownloadOutcome::Downloaded), DownloadEvent::IoFailed);
    assert!(matches!(s, DownloadState::Done(DownloadOutcome::Downloaded)));
    assert!(a.is_empty());
}

#[test]
fn verification_checks_size_then_digest() {
    let m = model(DIGEST);
    let (s, a) = verify_step(&m, &VerifyState::Start, VerifyEvent::Begin);
    assert!(matches!(a.as_slice(), [VerifyAction::MeasureFile]));
    let (missing, _) = verify_step(&m, &s, VerifyEvent::Measured { size: None });
    assert!(matches!(missing, VerifyState::Failed(VerifyFailure::NotDownloaded)));
    let (wrong, a) = verify_step(&m, &s, VerifyEvent::Measured { size: Some(7) });
    assert!(a.is_empty());
    assert!(matches!(wrong, VerifyState::Failed(VerifyFailure::SizeMismatch { expected: 100, actual: 7 })));
    let (s, a) = verify_step(&m, &s, VerifyEvent::Measured { size: Some(100) });
    assert!(matches!(a.as_slice(), [VerifyAction::HashFile]));
    let (ok, a) = verify_step(&m, &s, VerifyEvent::Digested { actual: DIGEST.to_string() });
    assert!(matches!(ok, VerifyState::Verified));
    assert!(matches!(a.as_slice(), [VerifyAction::LogVerified, VerifyAction::ReportVerified]));
    let (bad, _) = verify_step(&m, &s, VerifyEvent::Digested { actual: "ab".to_string() });
    assert!(matches!(&bad, VerifyState::Failed(VerifyFailure::DigestMismatch { actual, .. }) if actual == "ab"));
}
