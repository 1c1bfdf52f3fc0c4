//! Checking a downloaded model file against the catalog: its size first,
//! then its SHA-256.
//!
//! The check is a small state machine. The application performs each
//! action it asks for (measuring the file, hashing it) and feeds back what
//! it found; when an action fails with an I/O error it feeds
//! [`VerifyEvent::IoFailed`] instead.

use vstd::prelude::*;
use crate::catalog::Model;
use crate::digest::{digest_matches, digests_agree};

verus! {

/// Why a model file failed verification.
pub enum VerifyFailure {
    /// The model file does not exist.
    NotDownloaded,
    /// The file's size differs from the catalog's.
    SizeMismatch { expected: u64, actual: u64 },
    /// The file's SHA-256 differs from the catalog's.
    DigestMismatch { expected: String, actual: String },
}

impl VerifyFailure {
    /// A copy of this failure.
    pub fn duplicate(&self) -> (r: VerifyFailure)
        ensures
            r == *self,
    {
        match self {
            VerifyFailure::NotDownloaded => VerifyFailure::NotDownloaded,
            VerifyFailure::SizeMismatch { expected, actual } => VerifyFailure::SizeMismatch {
                expected: *expected,
                actual: *actual,
            },
            VerifyFailure::DigestMismatch { expected, actual } => VerifyFailure::DigestMismatch {
                expected: expected.clone(),
                actual: actual.clone(),
            },
        }
    }
}

/// Where a verification stands.
pub enum VerifyState {
    /// Nothing done yet.
    Start,
    /// Waiting for the file's size.
    AwaitSize,
    /// The size matched; waiting for the file's SHA-256.
    AwaitDigest,
    /// The file matches the catalog.
    Verified,
    /// The file does not match the catalog.
    Failed(VerifyFailure),
    /// An I/O error stopped the check.
    Interrupted,
}

/// What the application found.
pub enum VerifyEvent {
    /// Start the check.
    Begin,
    /// The file's size, or `None` when it could not be read (no file).
    Measured { size: Option<u64> },
    /// The file's SHA-256 in hexadecimal.
    Digested { actual: String },
    /// The last action failed with an I/O error.
    IoFailed,
}

/// What the application is asked to do, in order.
pub enum VerifyAction {
    /// Read the model file's size.
    MeasureFile,
    /// Compute the model file's SHA-256.
    HashFile,
    /// Record the verification in the log.
    LogVerified,
    /// Tell the user the model is verified.
    ReportVerified,
}

impl VerifyState {
    /// The verification has ended, one way or another.
    pub open spec fn is_terminal(self) -> bool {
        self is Verified || self is Failed || self is Interrupted
    }

    fn duplicate(&self) -> (r: VerifyState)
        ensures
            r == *self,
    {
        match self {
            VerifyState::Start => VerifyState::Start,
            VerifyState::AwaitSize => VerifyState::AwaitSize,
            VerifyState::AwaitDigest => VerifyState::AwaitDigest,
            VerifyState::Verified => VerifyState::Verified,
            VerifyState::Failed(f) => VerifyState::Failed(f.duplicate()),
            VerifyState::Interrupted => VerifyState::Interrupted,
        }
    }
}

/// One step of the check: the next state and the actions to perform.
/// Events that do not fit the state leave it as it is.
pub open spec fn verify_next(model: &Model, state: VerifyState, event: VerifyEvent) -> (
    VerifyState,
    Seq<VerifyAction>,
) {
    match state {
        VerifyState::Start => match event {
            VerifyEvent::Begin => (VerifyState::AwaitSize, seq![VerifyAction::MeasureFile]),
            VerifyEvent::IoFailed => (VerifyState::Interrupted, seq![]),
            _ => (state, seq![]),
        },
        VerifyState::AwaitSize => match event {
            VerifyEvent::Measured { size } => match size {
                None => (VerifyState::Failed(VerifyFailure::NotDownloaded), seq![]),
                Some(actual) => if actual != model.size_bytes {
                    (
                        VerifyState::Failed(
                            VerifyFailure::SizeMismatch { expected: model.size_bytes, actual },
                        ),
                        seq![],
                    )
                } else {
                    (VerifyState::AwaitDigest, seq![VerifyAction::HashFile])
                },
            },
            VerifyEvent::IoFailed => (VerifyState::Interrupted, seq![]),
            _ => (state, seq![]),
        },
        VerifyState::AwaitDigest => match event {
            VerifyEvent::Digested { actual } => if digests_agree(actual@, model.sha256@) {
                (VerifyState::Verified, seq![VerifyAction::LogVerified, VerifyAction::ReportVerified])
            } else {
                (
                    VerifyState::Failed(
                        VerifyFailure::DigestMismatch { expected: model.sha256, actual },
                    ),
                    seq![],
                )
            },
            VerifyEvent::IoFailed => (VerifyState::Interrupted, seq![]),
            _ => (state, seq![]),
        },
        _ => (state, seq![]),
    }
}

/// Advances the check by one event.
pub fn verify_step(model: &Model, state: &VerifyState, event: VerifyEvent) -> (r: (
    VerifyState,
    Vec<VerifyAction>,
))
    ensures
        (r.0, r.1@) == verify_next(model, *state, event),
{
    match state {
        VerifyState::Start => match event {
            VerifyEvent::Begin => {
                let mut actions = Vec::new();
                actions.push(VerifyAction::MeasureFile);
                assert(actions@ =~= seq![VerifyAction::MeasureFile]);
                (VerifyState::AwaitSize, actions)
            },
            VerifyEvent::IoFailed => (VerifyState::Interrupted, Vec::new()),
            _ => (state.duplicate(), Vec::new()),
        },
        VerifyState::AwaitSize => match event {
            VerifyEvent::Measured { size } => match size {
                None => (VerifyState::Failed(VerifyFailure::NotDownloaded), Vec::new()),
                Some(actual) => {
                    if actual != model.size_bytes {
                        (
                            VerifyState::Failed(
                                VerifyFailure::SizeMismatch { expected: model.size_bytes, actual },
                            ),
                            Vec::new(),
                        )
                    } else {
                        let mut actions = Vec::new();
                        actions.push(VerifyAction::HashFile);
                        assert(actions@ =~= seq![VerifyAction::HashFile]);
                        (VerifyState::AwaitDigest, actions)
                    }
                },
            },
            VerifyEvent::IoFailed => (VerifyState::Interrupted, Vec::new()),
            _ => (state.duplicate(), Vec::new()),
        },
        VerifyState::AwaitDigest => match event {
            VerifyEvent::Digested { actual } => {
                if digest_matches(actual.as_str(), model.sha256.as_str()) {
                    let mut actions = Vec::new();
                    actions.push(VerifyAction::LogVerified);
                    actions.push(VerifyAction::ReportVerified);
                    assert(actions@ =~= seq![VerifyAction::LogVerified, VerifyAction::ReportVerified]);
                    (VerifyState::Verified, actions)
                } else {
                    (
                        VerifyState::Failed(
                            VerifyFailure::DigestMismatch { expected: model.sha256.clone(), actual },
                        ),
                        Vec::new(),
                    )
                }
            },
            VerifyEvent::IoFailed => (VerifyState::Interrupted, Vec::new()),
            _ => (state.duplicate(), Vec::new()),
        },
        _ => (state.duplicate(), Vec::new()),
    }
}

/// A model file is accepted only when its size and then its SHA-256 match
/// the catalog: `Verified` is reached from waiting for the digest, on a
/// digest equal to the catalog's up to ASCII case, and the digest is asked
/// for only after the size matched.
pub proof fn verified_only_on_matching_file(model: &Model, state: VerifyState, event: VerifyEvent)
    ensures
        ({
            let (next, actions) = verify_next(model, state, event);
            &&& (next is Verified && !(state is Verified)) ==> (state is AwaitDigest && (event matches VerifyEvent::Digested { actual }
                && digests_agree(actual@, model.sha256@)))
            &&& (next is AwaitDigest && !(state is AwaitDigest)) ==> (state is AwaitSize && event
                == (VerifyEvent::Measured { size: Some(model.size_bytes) }))
        }),
{
}

/// Once verification has ended it stays ended and asks for nothing more.
pub proof fn verify_end_is_final(model: &Model, state: VerifyState, event: VerifyEvent)
    requires
        state.is_terminal(),
    ensures
        verify_next(model, state, event) == (state, Seq::<VerifyAction>::empty()),
{
}

} // verus!
