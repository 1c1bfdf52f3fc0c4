//! Downloading a model through a `.partial` file with HTTP range
//! resumption, and cancelling a partial download.
//!
//! Both are state machines. The application performs the actions a step
//! asks for, in order, and feeds back what it observed. When one of those
//! actions fails with an I/O error, the application stops performing the
//! rest and feeds `IoFailed` to the state the step started from, so that a
//! lock taken by this launcher is released.

use vstd::prelude::*;
use crate::catalog::Model;
use crate::digest::{digest_matches, digests_agree, is_placeholder, is_placeholder_digest};
use crate::text::{decimal, decimal_string, parse_u64, parsed_u64, push_str};
use crate::verify::VerifyFailure;

verus! {

/// Why a download was refused or failed.
pub enum DownloadFailure {
    /// The catalog has no real SHA-256 for the model.
    PlaceholderDigest { id: String },
    /// Another launcher holds the model's lock.
    Busy { id: String },
    /// The partial download was larger than the model; it was removed.
    PartialTooLarge,
    /// The server answered with an error status.
    HttpStatus { status: u16 },
    /// The server's content length does not add up to the model's size.
    LengthMismatch { id: String },
    /// The stream ended with another byte count than the model's size.
    Incomplete { expected: u64, received: u64 },
    /// The downloaded bytes do not have the catalog's SHA-256.
    DigestMismatch { id: String, expected: String, actual: String },
    /// The model file already present failed verification.
    Existing(VerifyFailure),
}

impl DownloadFailure {
    /// A copy of this failure.
    pub fn duplicate(&self) -> (r: DownloadFailure)
        ensures
            r == *self,
    {
        match self {
            DownloadFailure::PlaceholderDigest { id } => DownloadFailure::PlaceholderDigest {
                id: id.clone(),
            },
            DownloadFailure::Busy { id } => DownloadFailure::Busy { id: id.clone() },
            DownloadFailure::PartialTooLarge => DownloadFailure::PartialTooLarge,
            DownloadFailure::HttpStatus { status } => DownloadFailure::HttpStatus { status: *status },
            DownloadFailure::LengthMismatch { id } => DownloadFailure::LengthMismatch { id: id.clone() },
            DownloadFailure::Incomplete { expected, received } => DownloadFailure::Incomplete {
                expected: *expected,
                received: *received,
            },
            DownloadFailure::DigestMismatch { id, expected, actual } =>
                DownloadFailure::DigestMismatch {
                id: id.clone(),
                expected: expected.clone(),
                actual: actual.clone(),
            },
            DownloadFailure::Existing(f) => DownloadFailure::Existing(f.duplicate()),
        }
    }
}

/// How a finished download ended.
#[derive(Clone, Copy, Debug, PartialEq, Eq, Structural)]
pub enum DownloadOutcome {
    /// The model file was already there and verified.
    AlreadyPresent,
    /// The model was downloaded, verified and put in place.
    Downloaded,
}

/// Where a download stands.
pub enum DownloadState {
    /// Nothing done yet.
    Start,
    /// Waiting to learn whether the model file exists.
    AwaitDestination,
    /// Waiting for the verification of the existing model file.
    VerifyingExisting,
    /// Waiting for the model's lock.
    AwaitLock,
    /// Holding the lock; waiting for the partial file's size.
    AwaitPartialSize,
    /// Holding the lock; waiting for the server's answer to a request
    /// made with `existing` bytes already on disk.
    AwaitResponse { existing: u64 },
    /// Holding the lock; `received` bytes of the model are in the partial
    /// file.
    Receiving { received: u64 },
    /// Holding the lock; the partial file has the model's size and its
    /// SHA-256 is awaited.
    AwaitDigest,
    /// Finished.
    Done(DownloadOutcome),
    /// Refused or failed.
    Failed(DownloadFailure),
    /// Stopped by an I/O error.
    Interrupted,
}

/// What the application observed.
pub enum DownloadEvent {
    /// Start the download.
    Begin,
    /// Whether the model file exists.
    DestinationChecked { exists: bool },
    /// The result of verifying the existing model file.
    ExistingVerified { result: Result<(), VerifyFailure> },
    /// Whether the lock could be taken.
    LockAttempted { acquired: bool },
    /// The partial file's size (zero when there is none).
    PartialMeasured { length: u64 },
    /// The server's answer: its status code, whether it sent
    /// `Accept-Ranges`, and the text of its `Content-Length` when it sent
    /// one in visible ASCII.
    Responded { status: u16, accept_ranges: bool, content_length: Option<String> },
    /// `length` more bytes arrived.
    Received { length: u64 },
    /// The stream ended.
    StreamEnded,
    /// The partial file's SHA-256 in hexadecimal.
    Digested { actual: String },
    /// An action, or reading the stream, failed with an I/O error.
    IoFailed,
}

/// What the application is asked to do, in order.
pub enum DownloadAction {
    /// Find out whether the model file exists.
    CheckDestination,
    /// Verify the existing model file.
    VerifyExisting,
    /// Tell the user the model was already downloaded and verified.
    ReportAlreadyPresent,
    /// Create the directory for model files.
    CreateModelsDir,
    /// Open the lock file and try to lock it exclusively.
    AcquireLock,
    /// Read the partial file's size.
    MeasurePartial,
    /// Delete the partial file.
    RemovePartial,
    /// Build the HTTP client.
    PrepareClient,
    /// Record in the log that the download starts at byte `existing`.
    LogStarted { existing: u64 },
    /// Request the model; when resuming, ask for everything from byte
    /// `resume_from` on (see [`range_header`]).
    SendRequest { resume_from: Option<u64> },
    /// Record in the log that the server ignored the range request.
    LogRangeIgnored,
    /// Record in the log that the server resumed without advertising
    /// `Accept-Ranges`.
    LogResumedWithoutAcceptRanges,
    /// Open the partial file: appending to it, or emptied.
    OpenOutput { append: bool },
    /// Tell the user the download runs, and whether it resumes.
    AnnounceDownload { resuming: bool },
    /// Write the bytes just received to the partial file.
    WriteChunk,
    /// Show how many bytes have arrived.
    ReportProgress { received: u64 },
    /// Flush the partial file to disk.
    SyncOutput,
    /// Compute the partial file's SHA-256.
    HashPartial,
    /// Record in the log that the SHA-256 did not match.
    LogHashMismatch,
    /// Rename the partial file to the model file.
    PromotePartial,
    /// Record in the log that the download was verified.
    LogVerified,
    /// Tell the user the model was verified and saved.
    ReportSaved,
    /// Delete the lock file.
    ReleaseLock,
}

/// `StatusCode::is_client_error` for a status code: `400..=499`.
#[verifier::external_body]
fn status_is_client_error(status: u16) -> (r: bool)
    requires
        100 <= status <= 999,
    ensures
        r == (400 <= status < 500),
{
    match reqwest::StatusCode::from_u16(status) {
        Ok(code) => code.is_client_error(),
        Err(_) => false,
    }
}

/// `StatusCode::is_server_error` for a status code: `500..=599`.
#[verifier::external_body]
fn status_is_server_error(status: u16) -> (r: bool)
    requires
        100 <= status <= 999,
    ensures
        r == (500 <= status < 600),
{
    match reqwest::StatusCode::from_u16(status) {
        Ok(code) => code.is_server_error(),
        Err(_) => false,
    }
}

/// The status codes for which the response is turned into an error
/// (`Response::error_for_status`).
pub open spec fn is_error_status(status: u16) -> bool {
    400 <= status < 600
}

/// The `Range` header value asking for everything from byte `from` on.
pub open spec fn range_from(from: u64) -> Seq<char> {
    "bytes="@ + decimal(from as nat) + "-"@
}

/// `a + b`, or `u64::MAX` when that does not fit.
pub open spec fn saturating_sum(a: u64, b: u64) -> int {
    if a + b > u64::MAX {
        u64::MAX as int
    } else {
        a + b
    }
}

/// The states in which this launcher holds the model's lock.
pub open spec fn holds_lock(state: DownloadState) -> bool {
    state is AwaitPartialSize || state is AwaitResponse || state is Receiving || state is AwaitDigest
}

/// The states in which a download has ended, one way or another.
pub open spec fn is_finished(state: DownloadState) -> bool {
    state is Done || state is Failed || state is Interrupted
}

/// The actions when the lock is given up on an I/O failure.
pub open spec fn interrupted(state: DownloadState) -> (DownloadState, Seq<DownloadAction>) {
    if holds_lock(state) {
        (DownloadState::Interrupted, seq![DownloadAction::ReleaseLock])
    } else {
        (DownloadState::Interrupted, seq![])
    }
}

/// The step on the server's answer to a request made with `existing` bytes
/// on disk.
pub open spec fn on_response(
    model: &Model,
    existing: u64,
    status: u16,
    accept_ranges: bool,
    content_length: Option<String>,
) -> (DownloadState, Seq<DownloadAction>) {
    if is_error_status(status) {
        (
            DownloadState::Failed(DownloadFailure::HttpStatus { status }),
            seq![DownloadAction::ReleaseLock],
        )
    } else {
        let resumed = status == 206;
        let notes = (if existing > 0 && !resumed {
            seq![DownloadAction::LogRangeIgnored, DownloadAction::RemovePartial]
        } else {
            seq![]
        }) + (if existing > 0 && resumed && !accept_ranges {
            seq![DownloadAction::LogResumedWithoutAcceptRanges]
        } else {
            seq![]
        });
        let starting: u64 = if existing > 0 && resumed {
            existing
        } else {
            0
        };
        let declared = match content_length {
            Some(text) => parsed_u64(text@),
            None => None,
        };
        if declared matches Some(length) && saturating_sum(starting, length) != model.size_bytes {
            (
                DownloadState::Failed(DownloadFailure::LengthMismatch { id: model.id }),
                notes + seq![DownloadAction::ReleaseLock],
            )
        } else {
            (
                DownloadState::Receiving { received: starting },
                notes + seq![
                    DownloadAction::OpenOutput { append: starting > 0 },
                    DownloadAction::AnnounceDownload { resuming: starting > 0 },
                ],
            )
        }
    }
}

/// One step of a download: the next state and the actions to perform.
/// Events that do not fit the state leave it as it is.
pub open spec fn download_next(model: &Model, state: DownloadState, event: DownloadEvent) -> (
    DownloadState,
    Seq<DownloadAction>,
) {
    if is_finished(state) {
        (state, seq![])
    } else if event is IoFailed {
        interrupted(state)
    } else {
        match state {
            DownloadState::Start => match event {
                DownloadEvent::Begin => if is_placeholder(vstd::utf8::encode_utf8(model.sha256@)) {
                    (
                        DownloadState::Failed(DownloadFailure::PlaceholderDigest { id: model.id }),
                        seq![],
                    )
                } else {
                    (DownloadState::AwaitDestination, seq![DownloadAction::CheckDestination])
                },
                _ => (state, seq![]),
            },
            DownloadState::AwaitDestination => match event {
                DownloadEvent::DestinationChecked { exists } => if exists {
                    (DownloadState::VerifyingExisting, seq![DownloadAction::VerifyExisting])
                } else {
                    (
                        DownloadState::AwaitLock,
                        seq![DownloadAction::CreateModelsDir, DownloadAction::AcquireLock],
                    )
                },
                _ => (state, seq![]),
            },
            DownloadState::VerifyingExisting => match event {
                DownloadEvent::ExistingVerified { result } => match result {
                    Ok(()) => (
                        DownloadState::Done(DownloadOutcome::AlreadyPresent),
                        seq![DownloadAction::ReportAlreadyPresent],
                    ),
                    Err(f) => (DownloadState::Failed(DownloadFailure::Existing(f)), seq![]),
                },
                _ => (state, seq![]),
            },
            DownloadState::AwaitLock => match event {
                DownloadEvent::LockAttempted { acquired } => if acquired {
                    (DownloadState::AwaitPartialSize, seq![DownloadAction::MeasurePartial])
                } else {
                    (DownloadState::Failed(DownloadFailure::Busy { id: model.id }), seq![])
                },
                _ => (state, seq![]),
            },
            DownloadState::AwaitPartialSize => match event {
                DownloadEvent::PartialMeasured { length } => if length > model.size_bytes {
                    (
                        DownloadState::Failed(DownloadFailure::PartialTooLarge),
                        seq![DownloadAction::RemovePartial, DownloadAction::ReleaseLock],
                    )
                } else {
                    (
                        DownloadState::AwaitResponse { existing: length },
                        seq![
                            DownloadAction::PrepareClient,
                            DownloadAction::LogStarted { existing: length },
                            DownloadAction::SendRequest {
                                resume_from: if length > 0 {
                                    Some(length)
                                } else {
                                    None
                                },
                            },
                        ],
                    )
                },
                _ => (state, seq![]),
            },
            DownloadState::AwaitResponse { existing } => match event {
                DownloadEvent::Responded { status, accept_ranges, content_length } => on_response(
                    model,
                    existing,
                    status,
                    accept_ranges,
                    content_length,
                ),
                _ => (state, seq![]),
            },
            DownloadState::Receiving { received } => match event {
                DownloadEvent::Received { length } => (
                    DownloadState::Receiving { received: (received + length) as u64 },
                    seq![
                        DownloadAction::WriteChunk,
                        DownloadAction::ReportProgress { received: (received + length) as u64 },
                    ],
                ),
                DownloadEvent::StreamEnded => if received != model.size_bytes {
                    (
                        DownloadState::Failed(
                            DownloadFailure::Incomplete { expected: model.size_bytes, received },
                        ),
                        seq![DownloadAction::SyncOutput, DownloadAction::ReleaseLock],
                    )
                } else {
                    (
                        DownloadState::AwaitDigest,
                        seq![DownloadAction::SyncOutput, DownloadAction::HashPartial],
                    )
                },
                _ => (state, seq![]),
            },
            DownloadState::AwaitDigest => match event {
                DownloadEvent::Digested { actual } => if digests_agree(actual@, model.sha256@) {
                    (
                        DownloadState::Done(DownloadOutcome::Downloaded),
                        seq![
                            DownloadAction::PromotePartial,
                            DownloadAction::LogVerified,
                            DownloadAction::ReportSaved,
                            DownloadAction::ReleaseLock,
                        ],
                    )
                } else {
                    (
                        DownloadState::Failed(
                            DownloadFailure::DigestMismatch {
                                id: model.id,
                                expected: model.sha256,
                                actual,
                            },
                        ),
                        seq![DownloadAction::LogHashMismatch, DownloadAction::ReleaseLock],
                    )
                },
                _ => (state, seq![]),
            },
            _ => (state, seq![]),
        }
    }
}

/// The steps may only be fed what can occur: a status code is a three-digit
/// number, and the bytes received never exceed what a `u64` counts.
pub open spec fn event_fits(state: DownloadState, event: DownloadEvent) -> bool {
    &&& (event matches DownloadEvent::Responded { status, .. } ==> 100 <= status <= 999)
    &&& (state matches DownloadState::Receiving { received } ==> (event matches DownloadEvent::Received {
        length,
    } ==> received + length <= u64::MAX))
}

impl DownloadState {
    fn duplicate(&self) -> (r: DownloadState)
        ensures
            r == *self,
    {
        match self {
            DownloadState::Start => DownloadState::Start,
            DownloadState::AwaitDestination => DownloadState::AwaitDestination,
            DownloadState::VerifyingExisting => DownloadState::VerifyingExisting,
            DownloadState::AwaitLock => DownloadState::AwaitLock,
            DownloadState::AwaitPartialSize => DownloadState::AwaitPartialSize,
            DownloadState::AwaitResponse { existing } => DownloadState::AwaitResponse {
                existing: *existing,
            },
            DownloadState::Receiving { received } => DownloadState::Receiving { received: *received },
            DownloadState::AwaitDigest => DownloadState::AwaitDigest,
            DownloadState::Done(o) => DownloadState::Done(*o),
            DownloadState::Failed(f) => DownloadState::Failed(f.duplicate()),
            DownloadState::Interrupted => DownloadState::Interrupted,
        }
    }

    /// Whether this launcher holds the model's lock in this state.
    pub fn holds_lock(&self) -> (r: bool)
        ensures
            r == holds_lock(*self),
    {
        match self {
            DownloadState::AwaitPartialSize => true,
            DownloadState::AwaitResponse { .. } => true,
            DownloadState::Receiving { .. } => true,
            DownloadState::AwaitDigest => true,
            _ => false,
        }
    }

    /// Whether the download has finished, one way or another.
    pub fn is_finished(&self) -> (r: bool)
        ensures
            r == is_finished(*self),
    {
        match self {
            DownloadState::Done(_) => true,
            DownloadState::Failed(_) => true,
            DownloadState::Interrupted => true,
            _ => false,
        }
    }
}

fn one(a: DownloadAction) -> (r: Vec<DownloadAction>)
    ensures
        r@ == seq![a],
{
    let mut v = Vec::new();
    v.push(a);
    assert(v@ =~= seq![a]);
    v
}

fn two(a: DownloadAction, b: DownloadAction) -> (r: Vec<DownloadAction>)
    ensures
        r@ == seq![a, b],
{
    let mut v = Vec::new();
    v.push(a);
    v.push(b);
    assert(v@ =~= seq![a, b]);
    v
}

/// The `Range` header value that resumes a download at byte `from`:
/// `bytes=<from>-`.
pub fn range_header(from: u64) -> (r: String)
    ensures
        r@ == range_from(from),
{
    let mut out = String::new();
    push_str(&mut out, "bytes=");
    let digits = decimal_string(from);
    push_str(&mut out, digits.as_str());
    push_str(&mut out, "-");
    out
}

fn response_step(model: &Model, existing: u64, status: u16, accept_ranges: bool, content_length: Option<String>) -> (r: (DownloadState, Vec<DownloadAction>))
    requires
        100 <= status <= 999,
    ensures
        (r.0, r.1@) == on_response(model, existing, status, accept_ranges, content_length),
{
    if status_is_client_error(status) || status_is_server_error(status) {
        return (
            DownloadState::Failed(DownloadFailure::HttpStatus { status }),
            one(DownloadAction::ReleaseLock),
        );
    }
    let resumed = status == 206;
    let mut actions: Vec<DownloadAction> = Vec::new();
    if existing > 0 && !resumed {
        actions.push(DownloadAction::LogRangeIgnored);
        actions.push(DownloadAction::RemovePartial);
    }
    if existing > 0 && resumed && !accept_ranges {
        actions.push(DownloadAction::LogResumedWithoutAcceptRanges);
    }
    let ghost notes = actions@;
    assert(notes =~= (if existing > 0 && !resumed {
        seq![DownloadAction::LogRangeIgnored, DownloadAction::RemovePartial]
    } else {
        seq![]
    }) + (if existing > 0 && resumed && !accept_ranges {
        seq![DownloadAction::LogResumedWithoutAcceptRanges]
    } else {
        seq![]
    }));
    let starting: u64 = if existing > 0 && resumed {
        existing
    } else {
        0
    };
    let declared = match &content_length {
        Some(text) => parse_u64(text.as_str()),
        None => None,
    };
    let mismatch = match declared {
        Some(length) => starting.saturating_add(length) != model.size_bytes,
        None => false,
    };
    if mismatch {
        actions.push(DownloadAction::ReleaseLock);
        assert(actions@ =~= notes + seq![DownloadAction::ReleaseLock]);
        return (
            DownloadState::Failed(DownloadFailure::LengthMismatch { id: model.id.clone() }),
            actions,
        );
    }
    actions.push(DownloadAction::OpenOutput { append: starting > 0 });
    actions.push(DownloadAction::AnnounceDownload { resuming: starting > 0 });
    assert(actions@ =~= notes + seq![
        DownloadAction::OpenOutput { append: starting > 0 },
        DownloadAction::AnnounceDownload { resuming: starting > 0 },
    ]);
    (DownloadState::Receiving { received: starting }, actions)
}

/// Advances a download by one event.
pub fn download_step(model: &Model, state: &DownloadState, event: DownloadEvent) -> (r: (
    DownloadState,
    Vec<DownloadAction>,
))
    requires
        event_fits(*state, event),
    ensures
        (r.0, r.1@) == download_next(model, *state, event),
{
    if state.is_finished() {
        return (state.duplicate(), Vec::new());
    }
    if let DownloadEvent::IoFailed = event {
        if state.holds_lock() {
            return (DownloadState::Interrupted, one(DownloadAction::ReleaseLock));
        } else {
            return (DownloadState::Interrupted, Vec::new());
        }
    }
    match state {
        DownloadState::Start => match event {
            DownloadEvent::Begin => {
                if is_placeholder_digest(model.sha256.as_str()) {
                    (
                        DownloadState::Failed(
                            DownloadFailure::PlaceholderDigest { id: model.id.clone() },
                        ),
                        Vec::new(),
                    )
                } else {
                    (DownloadState::AwaitDestination, one(DownloadAction::CheckDestination))
                }
            },
            _ => (state.duplicate(), Vec::new()),
        },
        DownloadState::AwaitDestination => match event {
            DownloadEvent::DestinationChecked { exists } => {
                if exists {
                    (DownloadState::VerifyingExisting, one(DownloadAction::VerifyExisting))
                } else {
                    (
                        DownloadState::AwaitLock,
                        two(DownloadAction::CreateModelsDir, DownloadAction::AcquireLock),
                    )
                }
            },
            _ => (state.duplicate(), Vec::new()),
        },
        DownloadState::VerifyingExisting => match event {
            DownloadEvent::ExistingVerified { result } => match result {
                Ok(()) => (
                    DownloadState::Done(DownloadOutcome::AlreadyPresent),
                    one(DownloadAction::ReportAlreadyPresent),
                ),
                Err(f) => (DownloadState::Failed(DownloadFailure::Existing(f)), Vec::new()),
            },
            _ => (state.duplicate(), Vec::new()),
        },
        DownloadState::AwaitLock => match event {
            DownloadEvent::LockAttempted { acquired } => {
                if acquired {
                    (DownloadState::AwaitPartialSize, one(DownloadAction::MeasurePartial))
                } else {
                    (
                        DownloadState::Failed(DownloadFailure::Busy { id: model.id.clone() }),
                        Vec::new(),
                    )
                }
            },
            _ => (state.duplicate(), Vec::new()),
        },
        DownloadState::AwaitPartialSize => match event {
            DownloadEvent::PartialMeasured { length } => {
                if length > model.size_bytes {
                    (
                        DownloadState::Failed(DownloadFailure::PartialTooLarge),
                        two(DownloadAction::RemovePartial, DownloadAction::ReleaseLock),
                    )
                } else {
                    let resume_from = if length > 0 {
                        Some(length)
                    } else {
                        None
                    };
                    let mut actions = Vec::new();
                    actions.push(DownloadAction::PrepareClient);
                    actions.push(DownloadAction::LogStarted { existing: length });
                    actions.push(DownloadAction::SendRequest { resume_from });
                    assert(actions@ =~= seq![
                        DownloadAction::PrepareClient,
                        DownloadAction::LogStarted { existing: length },
                        DownloadAction::SendRequest {
                            resume_from: if length > 0 {
                                Some(length)
                            } else {
                                None
                            },
                        },
                    ]);
                    (DownloadState::AwaitResponse { existing: length }, actions)
                }
            },
            _ => (state.duplicate(), Vec::new()),
        },
        DownloadState::AwaitResponse { existing } => match event {
            DownloadEvent::Responded { status, accept_ranges, content_length } => response_step(
                model,
                *existing,
                status,
                accept_ranges,
                content_length,
            ),
            _ => (state.duplicate(), Vec::new()),
        },
        DownloadState::Receiving { received } => match event {
            DownloadEvent::Received { length } => {
                let total = *received + length;
                (
                    DownloadState::Receiving { received: total },
                    two(DownloadAction::WriteChunk, DownloadAction::ReportProgress { received: total }),
                )
            },
            DownloadEvent::StreamEnded => {
                if *received != model.size_bytes {
                    (
                        DownloadState::Failed(
                            DownloadFailure::Incomplete {
                                expected: model.size_bytes,
                                received: *received,
                            },
                        ),
                        two(DownloadAction::SyncOutput, DownloadAction::ReleaseLock),
                    )
                } else {
                    (
                        DownloadState::AwaitDigest,
                        two(DownloadAction::SyncOutput, DownloadAction::HashPartial),
                    )
                }
            },
            _ => (state.duplicate(), Vec::new()),
        },
        DownloadState::AwaitDigest => match event {
            DownloadEvent::Digested { actual } => {
                if digest_matches(actual.as_str(), model.sha256.as_str()) {
                    let mut actions = two(DownloadAction::PromotePartial, DownloadAction::LogVerified);
                    actions.push(DownloadAction::ReportSaved);
                    actions.push(DownloadAction::ReleaseLock);
                    assert(actions@ =~= seq![
                        DownloadAction::PromotePartial,
                        DownloadAction::LogVerified,
                        DownloadAction::ReportSaved,
                        DownloadAction::ReleaseLock,
                    ]);
                    (DownloadState::Done(DownloadOutcome::Downloaded), actions)
                } else {
                    (
                        DownloadState::Failed(
                            DownloadFailure::DigestMismatch {
                                id: model.id.clone(),
                                expected: model.sha256.clone(),
                                actual,
                            },
                        ),
                        two(DownloadAction::LogHashMismatch, DownloadAction::ReleaseLock),
                    )
                }
            },
            _ => (state.duplicate(), Vec::new()),
        },
        _ => (state.duplicate(), Vec::new()),
    }
}

/// A partial file is appended to only when it already holds bytes and the
/// server answered `206 Partial Content` to the range request; in every
/// other case it is opened empty. An ignored range request therefore never
/// leads to appending the wrong bytes.
pub proof fn appends_only_to_honoured_ranges(model: &Model, state: DownloadState, event: DownloadEvent, append: bool)
    requires
        download_next(model, state, event).1.contains(DownloadAction::OpenOutput { append }),
    ensures
        state is AwaitResponse,
        event is Responded,
        append == (state->existing > 0 && event->status == 206),
{
    let actions = download_next(model, state, event).1;
    let i = choose|i: int| 0 <= i < actions.len() && actions[i] == DownloadAction::OpenOutput { append };
    assert(actions[i] == DownloadAction::OpenOutput { append });
}

/// When the server ignores the range request for a partial file, the
/// partial file is deleted and the download starts over from an empty file.
pub proof fn ignored_range_restarts(model: &Model, existing: u64, status: u16, accept_ranges: bool, content_length: Option<String>)
    requires
        existing > 0,
        status != 206,
        !is_error_status(status),
    ensures
        ({
            let (next, actions) = download_next(
                model,
                DownloadState::AwaitResponse { existing },
                DownloadEvent::Responded { status, accept_ranges, content_length },
            );
            &&& actions[0] == DownloadAction::LogRangeIgnored
            &&& actions[1] == DownloadAction::RemovePartial
            &&& !actions.contains(DownloadAction::OpenOutput { append: true })
            &&& next matches DownloadState::Receiving { received } ==> received == 0
        }),
{
    let (next, actions) = download_next(
        model,
        DownloadState::AwaitResponse { existing },
        DownloadEvent::Responded { status, accept_ranges, content_length },
    );
    if actions.contains(DownloadAction::OpenOutput { append: true }) {
        appends_only_to_honoured_ranges(
            model,
            DownloadState::AwaitResponse { existing },
            DownloadEvent::Responded { status, accept_ranges, content_length },
            true,
        );
    }
}

/// The partial file becomes the model file only after its SHA-256 was found
/// equal to the catalog's.
pub proof fn promotes_only_verified_downloads(model: &Model, state: DownloadState, event: DownloadEvent)
    requires
        download_next(model, state, event).1.contains(DownloadAction::PromotePartial),
    ensures
        state is AwaitDigest,
        event matches DownloadEvent::Digested { actual } && digests_agree(actual@, model.sha256@),
        download_next(model, state, event).0 == DownloadState::Done(DownloadOutcome::Downloaded),
{
    let actions = download_next(model, state, event).1;
    let i = choose|i: int| 0 <= i < actions.len() && actions[i] == DownloadAction::PromotePartial;
    assert(actions[i] == DownloadAction::PromotePartial);
}

/// The SHA-256 of the partial file is asked for only once the stream ended
/// with exactly the model's size on disk.
pub proof fn hashes_only_complete_downloads(model: &Model, state: DownloadState, event: DownloadEvent)
    requires
        download_next(model, state, event).0 is AwaitDigest,
        !(state is AwaitDigest),
    ensures
        state == (DownloadState::Receiving { received: model.size_bytes }),
        event is StreamEnded,
{
}

/// The byte count grows by exactly what arrived.
pub proof fn counts_every_byte(model: &Model, received: u64, length: u64)
    requires
        received + length <= u64::MAX,
    ensures
        download_next(model, DownloadState::Receiving { received }, DownloadEvent::Received { length }).0
            == (DownloadState::Receiving { received: (received + length) as u64 }),
{
}

/// The lock is taken only when locking succeeded, and whenever the download
/// ends while holding it, the lock file is deleted; a launcher that does not
/// hold the lock never deletes it.
pub proof fn lock_is_released(model: &Model, state: DownloadState, event: DownloadEvent)
    ensures
        ({
            let (next, actions) = download_next(model, state, event);
            &&& (holds_lock(next) && !holds_lock(state)) ==> (state is AwaitLock && event
                == (DownloadEvent::LockAttempted { acquired: true }))
            &&& (holds_lock(state) && is_finished(next)) ==> actions.last() == DownloadAction::ReleaseLock
            &&& !holds_lock(state) ==> !actions.contains(DownloadAction::ReleaseLock)
            &&& (holds_lock(state) && !is_finished(next)) ==> !actions.contains(DownloadAction::ReleaseLock)
        }),
{
    let (next, actions) = download_next(model, state, event);
    if actions.contains(DownloadAction::ReleaseLock) {
        let i = choose|i: int| 0 <= i < actions.len() && actions[i] == DownloadAction::ReleaseLock;
        assert(actions[i] == DownloadAction::ReleaseLock);
    }
}

/// A partial file larger than the model is deleted and the download fails.
pub proof fn oversized_partial_is_removed(model: &Model, length: u64)
    requires
        length > model.size_bytes,
    ensures
        download_next(model, DownloadState::AwaitPartialSize, DownloadEvent::PartialMeasured { length })
            == (DownloadState::Failed(DownloadFailure::PartialTooLarge), seq![
            DownloadAction::RemovePartial,
            DownloadAction::ReleaseLock,
        ]),
{
}

/// A model whose catalog entry has no real SHA-256 is never downloaded:
/// the download fails before touching anything.
pub proof fn placeholder_digest_is_refused(model: &Model)
    requires
        is_placeholder(vstd::utf8::encode_utf8(model.sha256@)),
    ensures
        download_next(model, DownloadState::Start, DownloadEvent::Begin) == (DownloadState::Failed(
            DownloadFailure::PlaceholderDigest { id: model.id },
        ), Seq::<DownloadAction>::empty()),
{
}

/// Once a download has ended it stays ended and asks for nothing more.
pub proof fn download_end_is_final(model: &Model, state: DownloadState, event: DownloadEvent)
    requires
        is_finished(state),
    ensures
        download_next(model, state, event) == (state, Seq::<DownloadAction>::empty()),
{
}

/// Why cancelling a download was refused.
pub enum CancelFailure {
    /// The completed model file exists; cancelling removes only partial
    /// downloads.
    CompletedModelPresent { id: String },
    /// Another launcher holds the model's lock.
    Busy { id: String },
}

impl CancelFailure {
    fn duplicate(&self) -> (r: CancelFailure)
        ensures
            r == *self,
    {
        match self {
            CancelFailure::CompletedModelPresent { id } => CancelFailure::CompletedModelPresent {
                id: id.clone(),
            },
            CancelFailure::Busy { id } => CancelFailure::Busy { id: id.clone() },
        }
    }
}

/// How a cancellation ended.
#[derive(Clone, Copy, Debug, PartialEq, Eq, Structural)]
pub enum CancelOutcome {
    /// The partial download was deleted.
    Removed,
    /// There was no partial download.
    NothingToRemove,
}

/// Where a cancellation stands.
pub enum CancelState {
    /// Nothing done yet.
    Start,
    /// Waiting to learn whether the completed model file exists.
    AwaitModelCheck,
    /// Waiting for the model's lock.
    AwaitLock,
    /// Holding the lock; waiting to learn whether a partial file exists.
    AwaitPartialCheck,
    /// Finished.
    Done(CancelOutcome),
    /// Refused.
    Failed(CancelFailure),
    /// Stopped by an I/O error.
    Interrupted,
}

/// What the application observed.
pub enum CancelEvent {
    /// Start cancelling.
    Begin,
    /// Whether the completed model file exists.
    ModelChecked { exists: bool },
    /// Whether the lock could be taken.
    LockAttempted { acquired: bool },
    /// Whether a partial file exists.
    PartialChecked { exists: bool },
    /// An action failed with an I/O error.
    IoFailed,
}

/// What the application is asked to do, in order.
pub enum CancelAction {
    /// Find out whether the completed model file exists.
    CheckModel,
    /// Open the lock file and try to lock it exclusively.
    AcquireLock,
    /// Find out whether a partial file exists.
    CheckPartial,
    /// Delete the partial file.
    RemovePartial,
    /// Tell the user the partial file was deleted.
    ReportRemoved,
    /// Record the cancellation in the log.
    LogCancelled,
    /// Tell the user there was no partial file.
    ReportNothingToRemove,
    /// Delete the lock file.
    ReleaseLock,
}

/// The states in which a cancellation has ended, one way or another.
pub open spec fn cancel_finished(state: CancelState) -> bool {
    state is Done || state is Failed || state is Interrupted
}

/// One step of a cancellation: the next state and the actions to perform.
/// Events that do not fit the state leave it as it is.
pub open spec fn cancel_next(model: &Model, state: CancelState, event: CancelEvent) -> (
    CancelState,
    Seq<CancelAction>,
) {
    if cancel_finished(state) {
        (state, seq![])
    } else if event is IoFailed {
        (CancelState::Interrupted, seq![])
    } else {
        match state {
            CancelState::Start => match event {
                CancelEvent::Begin => (CancelState::AwaitModelCheck, seq![CancelAction::CheckModel]),
                _ => (state, seq![]),
            },
            CancelState::AwaitModelCheck => match event {
                CancelEvent::ModelChecked { exists } => if exists {
                    (
                        CancelState::Failed(CancelFailure::CompletedModelPresent { id: model.id }),
                        seq![],
                    )
                } else {
                    (CancelState::AwaitLock, seq![CancelAction::AcquireLock])
                },
                _ => (state, seq![]),
            },
            CancelState::AwaitLock => match event {
                CancelEvent::LockAttempted { acquired } => if acquired {
                    (CancelState::AwaitPartialCheck, seq![CancelAction::CheckPartial])
                } else {
                    (CancelState::Failed(CancelFailure::Busy { id: model.id }), seq![])
                },
                _ => (state, seq![]),
            },
            CancelState::AwaitPartialCheck => match event {
                CancelEvent::PartialChecked { exists } => if exists {
                    (
                        CancelState::Done(CancelOutcome::Removed),
                        seq![
                            CancelAction::RemovePartial,
                            CancelAction::ReportRemoved,
                            CancelAction::LogCancelled,
                            CancelAction::ReleaseLock,
                        ],
                    )
                } else {
                    (
                        CancelState::Done(CancelOutcome::NothingToRemove),
                        seq![CancelAction::ReportNothingToRemove, CancelAction::ReleaseLock],
                    )
                },
                _ => (state, seq![]),
            },
            _ => (state, seq![]),
        }
    }
}

impl CancelState {
    fn duplicate(&self) -> (r: CancelState)
        ensures
            r == *self,
    {
        match self {
            CancelState::Start => CancelState::Start,
            CancelState::AwaitModelCheck => CancelState::AwaitModelCheck,
            CancelState::AwaitLock => CancelState::AwaitLock,
            CancelState::AwaitPartialCheck => CancelState::AwaitPartialCheck,
            CancelState::Done(o) => CancelState::Done(*o),
            CancelState::Failed(f) => CancelState::Failed(f.duplicate()),
            CancelState::Interrupted => CancelState::Interrupted,
        }
    }

    /// Whether the cancellation has finished, one way or another.
    pub fn is_finished(&self) -> (r: bool)
        ensures
            r == cancel_finished(*self),
    {
        match self {
            CancelState::Done(_) => true,
            CancelState::Failed(_) => true,
            CancelState::Interrupted => true,
            _ => false,
        }
    }
}

/// Advances a cancellation by one event.
pub fn cancel_step(model: &Model, state: &CancelState, event: CancelEvent) -> (r: (
    CancelState,
    Vec<CancelAction>,
))
    ensures
        (r.0, r.1@) == cancel_next(model, *state, event),
{
    if state.is_finished() {
        return (state.duplicate(), Vec::new());
    }
    if let CancelEvent::IoFailed = event {
        return (CancelState::Interrupted, Vec::new());
    }
    let mut actions: Vec<CancelAction> = Vec::new();
    match state {
        CancelState::Start => match event {
            CancelEvent::Begin => {
                actions.push(CancelAction::CheckModel);
                assert(actions@ =~= seq![CancelAction::CheckModel]);
                (CancelState::AwaitModelCheck, actions)
            },
            _ => (state.duplicate(), actions),
        },
        CancelState::AwaitModelCheck => match event {
            CancelEvent::ModelChecked { exists } => {
                if exists {
                    (
                        CancelState::Failed(
                            CancelFailure::CompletedModelPresent { id: model.id.clone() },
                        ),
                        actions,
                    )
                } else {
                    actions.push(CancelAction::AcquireLock);
                    assert(actions@ =~= seq![CancelAction::AcquireLock]);
                    (CancelState::AwaitLock, actions)
                }
            },
            _ => (state.duplicate(), actions),
        },
        CancelState::AwaitLock => match event {
            CancelEvent::LockAttempted { acquired } => {
                if acquired {
                    actions.push(CancelAction::CheckPartial);
                    assert(actions@ =~= seq![CancelAction::CheckPartial]);
                    (CancelState::AwaitPartialCheck, actions)
                } else {
                    (CancelState::Failed(CancelFailure::Busy { id: model.id.clone() }), actions)
                }
            },
            _ => (state.duplicate(), actions),
        },
        CancelState::AwaitPartialCheck => match event {
            CancelEvent::PartialChecked { exists } => {
                if exists {
                    actions.push(CancelAction::RemovePartial);
                    actions.push(CancelAction::ReportRemoved);
                    actions.push(CancelAction::LogCancelled);
                    actions.push(CancelAction::ReleaseLock);
                    assert(actions@ =~= seq![
                        CancelAction::RemovePartial,
                        CancelAction::ReportRemoved,
                        CancelAction::LogCancelled,
                        CancelAction::ReleaseLock,
                    ]);
                    (CancelState::Done(CancelOutcome::Removed), actions)
                } else {
                    actions.push(CancelAction::ReportNothingToRemove);
                    actions.push(CancelAction::ReleaseLock);
                    assert(actions@ =~= seq![CancelAction::ReportNothingToRemove, CancelAction::ReleaseLock]);
                    (CancelState::Done(CancelOutcome::NothingToRemove), actions)
                }
            },
            _ => (state.duplicate(), actions),
        },
        _ => (state.duplicate(), actions),
    }
}

/// Cancelling never touches a completed download: when the model file
/// exists it is refused before the lock or the partial file is touched, and
/// the partial file is deleted only after the model file was found absent
/// and the lock was taken.
pub proof fn cancel_removes_only_partials(model: &Model, state: CancelState, event: CancelEvent)
    ensures
        ({
            let (next, actions) = cancel_next(model, state, event);
            &&& (state is AwaitModelCheck && event == (CancelEvent::ModelChecked { exists: true })) ==> (next
                == CancelState::Failed(CancelFailure::CompletedModelPresent { id: model.id })
                && actions.len() == 0)
            &&& actions.contains(CancelAction::RemovePartial) ==> (state is AwaitPartialCheck && event
                == (CancelEvent::PartialChecked { exists: true }))
            &&& (next is AwaitPartialCheck && !(state is AwaitPartialCheck)) ==> (state is AwaitLock && event
                == (CancelEvent::LockAttempted { acquired: true }))
            &&& (next is AwaitLock && !(state is AwaitLock)) ==> (state is AwaitModelCheck && event
                == (CancelEvent::ModelChecked { exists: false }))
        }),
{
    let (next, actions) = cancel_next(model, state, event);
    if actions.contains(CancelAction::RemovePartial) {
        let i = choose|i: int| 0 <= i < actions.len() && actions[i] == CancelAction::RemovePartial;
        assert(actions[i] == CancelAction::RemovePartial);
    }
}

/// A model file that is already present is never taken on trust: when its
/// verification fails, the download fails with that very failure and does
/// nothing more; it is reported as already present, and the download ends
/// successfully without downloading, only after it verified.
pub proof fn existing_file_must_verify(model: &Model, failure: VerifyFailure, state: DownloadState, event: DownloadEvent)
    ensures
        download_next(
            model,
            DownloadState::VerifyingExisting,
            DownloadEvent::ExistingVerified { result: Err(failure) },
        ) == (DownloadState::Failed(DownloadFailure::Existing(failure)), Seq::<DownloadAction>::empty()),
        ({
            let (next, actions) = download_next(model, state, event);
            &&& (!is_finished(state) && next == DownloadState::Done(DownloadOutcome::AlreadyPresent)) ==> (
            state is VerifyingExisting && (event matches DownloadEvent::ExistingVerified { result }
                && result is Ok))
            &&& actions.contains(DownloadAction::ReportAlreadyPresent) ==> (state is VerifyingExisting
                && (event matches DownloadEvent::ExistingVerified { result } && result is Ok))
        }),
{
    let (next, actions) = download_next(model, state, event);
    if actions.contains(DownloadAction::ReportAlreadyPresent) {
        let i = choose|i: int| 0 <= i < actions.len() && actions[i] == DownloadAction::ReportAlreadyPresent;
        assert(actions[i] == DownloadAction::ReportAlreadyPresent);
    }
}

} // verus!
