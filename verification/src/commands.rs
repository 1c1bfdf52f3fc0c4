//! The `preflight`, `setup`, `launch` and `status` commands as state
//! machines.
//!
//! Each step takes the command's inputs, the current state and what the
//! application just observed, and returns the next state and the actions
//! the application performs, in order. Models are named by their position
//! in the catalog. I/O errors are the application's to report; they end the
//! command.

use vstd::prelude::*;
use crate::catalog::{eligible_indices, eligible_models, find_model_index, first_index, first_with_id, has_id, is_eligible, Manifest};
use crate::compat::{incompatibilities, spec_incompatibilities, Incompatibility};
use crate::download::DownloadFailure;
use crate::error::LaunchError;
use crate::machine::Machine;
use crate::setup::{
    affirmative, check_setup_flags, decision_for, download_decision, is_affirmative, parse_selection, selection,
    DownloadDecision,
};
use crate::verify::VerifyFailure;

verus! {

fn acts0<A>() -> (r: Vec<A>)
    ensures
        r@ == Seq::<A>::empty(),
{
    Vec::new()
}

fn acts1<A>(a: A) -> (r: Vec<A>)
    ensures
        r@ == seq![a],
{
    let mut v = Vec::new();
    v.push(a);
    assert(v@ =~= seq![a]);
    v
}

fn acts2<A>(a: A, b: A) -> (r: Vec<A>)
    ensures
        r@ == seq![a, b],
{
    let mut v = Vec::new();
    v.push(a);
    v.push(b);
    assert(v@ =~= seq![a, b]);
    v
}

fn acts3<A>(a: A, b: A, c: A) -> (r: Vec<A>)
    ensures
        r@ == seq![a, b, c],
{
    let mut v = Vec::new();
    v.push(a);
    v.push(b);
    v.push(c);
    assert(v@ =~= seq![a, b, c]);
    v
}

fn acts4<A>(a: A, b: A, c: A, d: A) -> (r: Vec<A>)
    ensures
        r@ == seq![a, b, c, d],
{
    let mut v = Vec::new();
    v.push(a);
    v.push(b);
    v.push(c);
    v.push(d);
    assert(v@ =~= seq![a, b, c, d]);
    v
}

fn eligible_now(manifest: &Manifest, machine: &Machine, allow_cpu_fallback: bool, index: usize) -> (r: bool)
    requires
        index < manifest.models.len(),
    ensures
        r == is_eligible(manifest.models@, machine, allow_cpu_fallback, index),
{
    incompatibilities(&manifest.models[index], machine, allow_cpu_fallback).len() == 0
}

// ----------------------------------------------------------------------
// preflight

/// Why preflight failed.
pub enum PreflightFailure {
    /// No model has the requested or saved identifier.
    UnknownModel,
    /// The profile at `index` cannot run on this machine, for `reasons`.
    NotEligible { index: usize, reasons: Vec<Incompatibility> },
    /// The downloaded model file failed verification.
    Verify(VerifyFailure),
    /// No runtime binary was found.
    NoRuntime,
}

/// Where preflight stands.
pub enum PreflightState {
    Start,
    /// Waiting for the saved setup choice.
    AwaitConfig,
    /// The profile at `index` is eligible; waiting to learn whether its
    /// model file exists.
    AwaitModelFile { index: usize },
    /// Waiting for the model file's verification.
    AwaitVerification { index: usize },
    /// Waiting for the runtime to be found.
    AwaitRuntime { index: usize },
    /// Everything checked out.
    Passed { index: usize },
    Failed(PreflightFailure),
}

/// A preflight failure as plain values.
pub enum PreflightFailureView {
    UnknownModel,
    NotEligible { index: usize, reasons: Seq<Incompatibility> },
    Verify(VerifyFailure),
    NoRuntime,
}

/// A preflight state as plain values.
pub enum PreflightStateView {
    Start,
    AwaitConfig,
    AwaitModelFile { index: usize },
    AwaitVerification { index: usize },
    AwaitRuntime { index: usize },
    Passed { index: usize },
    Failed(PreflightFailureView),
}

impl View for PreflightFailure {
    type V = PreflightFailureView;

    open spec fn view(&self) -> PreflightFailureView {
        match self {
            PreflightFailure::UnknownModel => PreflightFailureView::UnknownModel,
            PreflightFailure::NotEligible { index, reasons } => PreflightFailureView::NotEligible {
                index: *index,
                reasons: reasons@,
            },
            PreflightFailure::Verify(f) => PreflightFailureView::Verify(*f),
            PreflightFailure::NoRuntime => PreflightFailureView::NoRuntime,
        }
    }
}

impl View for PreflightState {
    type V = PreflightStateView;

    open spec fn view(&self) -> PreflightStateView {
        match self {
            PreflightState::Start => PreflightStateView::Start,
            PreflightState::AwaitConfig => PreflightStateView::AwaitConfig,
            PreflightState::AwaitModelFile { index } => PreflightStateView::AwaitModelFile { index: *index },
            PreflightState::AwaitVerification { index } => PreflightStateView::AwaitVerification {
                index: *index,
            },
            PreflightState::AwaitRuntime { index } => PreflightStateView::AwaitRuntime { index: *index },
            PreflightState::Passed { index } => PreflightStateView::Passed { index: *index },
            PreflightState::Failed(f) => PreflightStateView::Failed(f@),
        }
    }
}

/// What the application observed.
pub enum PreflightEvent {
    Begin,
    /// The identifier saved by setup.
    ConfigLoaded { selected_model_id: String },
    ModelFileChecked { exists: bool },
    Verified { result: Result<(), VerifyFailure> },
    RuntimeResolved { found: bool },
}

/// What the application is asked to do, in order.
pub enum PreflightAction {
    /// Show the title, the machine and the portable directory.
    ReportHeader,
    /// Read the saved setup choice.
    LoadConfig,
    ReportProfile { index: usize },
    ReportCompatible,
    CheckModelFile { index: usize },
    VerifyModel { index: usize },
    ReportVerified,
    ReportNotDownloaded { index: usize },
    /// Find the runtime for the profile (no override).
    ResolveRuntime { index: usize },
    ReportRuntime,
    ReportPassed,
    LogPassed { index: usize },
}

/// The step once the profile was looked up: an unknown identifier fails,
/// an ineligible profile fails with every reason it cannot run here.
pub open spec fn preflight_selected(manifest: &Manifest, machine: &Machine, allow_cpu_fallback: bool, found: Option<usize>) -> (
    PreflightStateView,
    Seq<PreflightAction>,
) {
    match found {
        None => (PreflightStateView::Failed(PreflightFailureView::UnknownModel), seq![]),
        Some(i) => if is_eligible(manifest.models@, machine, allow_cpu_fallback, i) {
            (
                PreflightStateView::AwaitModelFile { index: i },
                seq![
                    PreflightAction::ReportProfile { index: i },
                    PreflightAction::ReportCompatible,
                    PreflightAction::CheckModelFile { index: i },
                ],
            )
        } else {
            (
                PreflightStateView::Failed(
                    PreflightFailureView::NotEligible {
                        index: i,
                        reasons: spec_incompatibilities(&manifest.models@[i as int], machine, allow_cpu_fallback),
                    },
                ),
                seq![PreflightAction::ReportProfile { index: i }],
            )
        },
    }
}

/// One step of preflight. Events that do not fit the state leave it as it
/// is.
pub open spec fn preflight_next(
    manifest: &Manifest,
    machine: &Machine,
    allow_cpu_fallback: bool,
    requested: Option<&str>,
    state: PreflightState,
    event: PreflightEvent,
) -> (PreflightStateView, Seq<PreflightAction>) {
    match state {
        PreflightState::Start => match event {
            PreflightEvent::Begin => match requested {
                Some(id) => {
                    let (s, a) = preflight_selected(
                        manifest,
                        machine,
                        allow_cpu_fallback,
                        first_index(manifest.models@, id@),
                    );
                    (s, seq![PreflightAction::ReportHeader] + a)
                },
                None => (
                    PreflightStateView::AwaitConfig,
                    seq![PreflightAction::ReportHeader, PreflightAction::LoadConfig],
                ),
            },
            _ => (state@, seq![]),
        },
        PreflightState::AwaitConfig => match event {
            PreflightEvent::ConfigLoaded { selected_model_id } => preflight_selected(
                manifest,
                machine,
                allow_cpu_fallback,
                first_index(manifest.models@, selected_model_id@),
            ),
            _ => (state@, seq![]),
        },
        PreflightState::AwaitModelFile { index } => match event {
            PreflightEvent::ModelFileChecked { exists } => if exists {
                (PreflightStateView::AwaitVerification { index }, seq![PreflightAction::VerifyModel { index }])
            } else {
                (
                    PreflightStateView::AwaitRuntime { index },
                    seq![
                        PreflightAction::ReportNotDownloaded { index },
                        PreflightAction::ResolveRuntime { index },
                    ],
                )
            },
            _ => (state@, seq![]),
        },
        PreflightState::AwaitVerification { index } => match event {
            PreflightEvent::Verified { result } => match result {
                Ok(()) => (
                    PreflightStateView::AwaitRuntime { index },
                    seq![PreflightAction::ReportVerified, PreflightAction::ResolveRuntime { index }],
                ),
                Err(f) => (PreflightStateView::Failed(PreflightFailureView::Verify(f)), seq![]),
            },
            _ => (state@, seq![]),
        },
        PreflightState::AwaitRuntime { index } => match event {
            PreflightEvent::RuntimeResolved { found } => if found {
                (
                    PreflightStateView::Passed { index },
                    seq![
                        PreflightAction::ReportRuntime,
                        PreflightAction::ReportPassed,
                        PreflightAction::LogPassed { index },
                    ],
                )
            } else {
                (PreflightStateView::Failed(PreflightFailureView::NoRuntime), seq![])
            },
            _ => (state@, seq![]),
        },
        _ => (state@, seq![]),
    }
}

fn preflight_select(manifest: &Manifest, machine: &Machine, allow_cpu_fallback: bool, id: &str) -> (r: (
    PreflightState,
    Vec<PreflightAction>,
))
    ensures
        (r.0@, r.1@) == preflight_selected(
            manifest,
            machine,
            allow_cpu_fallback,
            first_index(manifest.models@, id@),
        ),
{
    match find_model_index(manifest, id) {
        None => (PreflightState::Failed(PreflightFailure::UnknownModel), acts0()),
        Some(i) => {
            let reasons = incompatibilities(&manifest.models[i], machine, allow_cpu_fallback);
            if reasons.len() == 0 {
                (
                    PreflightState::AwaitModelFile { index: i },
                    acts3(
                        PreflightAction::ReportProfile { index: i },
                        PreflightAction::ReportCompatible,
                        PreflightAction::CheckModelFile { index: i },
                    ),
                )
            } else {
                (
                    PreflightState::Failed(PreflightFailure::NotEligible { index: i, reasons }),
                    acts1(PreflightAction::ReportProfile { index: i }),
                )
            }
        },
    }
}

/// Advances preflight by one event.
pub fn preflight_step(
    manifest: &Manifest,
    machine: &Machine,
    allow_cpu_fallback: bool,
    requested: Option<&str>,
    state: PreflightState,
    event: PreflightEvent,
) -> (r: (PreflightState, Vec<PreflightAction>))
    ensures
        (r.0@, r.1@) == preflight_next(manifest, machine, allow_cpu_fallback, requested, state, event),
{
    match state {
        PreflightState::Start => match event {
            PreflightEvent::Begin => match requested {
                Some(id) => {
                    let (s, a) = preflight_select(manifest, machine, allow_cpu_fallback, id);
                    let mut actions = acts1(PreflightAction::ReportHeader);
                    let mut rest = a;
                    actions.append(&mut rest);
                    (s, actions)
                },
                None => (
                    PreflightState::AwaitConfig,
                    acts2(PreflightAction::ReportHeader, PreflightAction::LoadConfig),
                ),
            },
            _ => (state, acts0()),
        },
        PreflightState::AwaitConfig => match event {
            PreflightEvent::ConfigLoaded { selected_model_id } => preflight_select(
                manifest,
                machine,
                allow_cpu_fallback,
                selected_model_id.as_str(),
            ),
            _ => (state, acts0()),
        },
        PreflightState::AwaitModelFile { index } => match event {
            PreflightEvent::ModelFileChecked { exists } => {
                if exists {
                    (
                        PreflightState::AwaitVerification { index },
                        acts1(PreflightAction::VerifyModel { index }),
                    )
                } else {
                    (
                        PreflightState::AwaitRuntime { index },
                        acts2(
                            PreflightAction::ReportNotDownloaded { index },
                            PreflightAction::ResolveRuntime { index },
                        ),
                    )
                }
            },
            _ => (state, acts0()),
        },
        PreflightState::AwaitVerification { index } => match event {
            PreflightEvent::Verified { result } => match result {
                Ok(()) => (
                    PreflightState::AwaitRuntime { index },
                    acts2(PreflightAction::ReportVerified, PreflightAction::ResolveRuntime { index }),
                ),
                Err(f) => (PreflightState::Failed(PreflightFailure::Verify(f)), acts0()),
            },
            _ => (state, acts0()),
        },
        PreflightState::AwaitRuntime { index } => match event {
            PreflightEvent::RuntimeResolved { found } => {
                if found {
                    (
                        PreflightState::Passed { index },
                        acts3(
                            PreflightAction::ReportRuntime,
                            PreflightAction::ReportPassed,
                            PreflightAction::LogPassed { index },
                        ),
                    )
                } else {
                    (PreflightState::Failed(PreflightFailure::NoRuntime), acts0())
                }
            },
            _ => (state, acts0()),
        },
        _ => (state, acts0()),
    }
}

/// Preflight looks at a model file only for a profile that is eligible on
/// this machine (an ineligible one fails with every reason it cannot run), verifies the file only when it exists, goes on to the
/// runtime only when the file is absent or verified, and passes only once
/// a runtime was found.
pub proof fn preflight_checks_in_order(
    manifest: &Manifest,
    machine: &Machine,
    allow_cpu_fallback: bool,
    requested: Option<&str>,
    state: PreflightState,
    event: PreflightEvent,
)
    ensures
        ({
            let (next, actions) = preflight_next(manifest, machine, allow_cpu_fallback, requested, state, event);
            &&& (next is AwaitModelFile && !(state is AwaitModelFile)) ==> is_eligible(
                manifest.models@,
                machine,
                allow_cpu_fallback,
                next->AwaitModelFile_index,
            )
            &&& (next is AwaitVerification && !(state is AwaitVerification)) ==> (state is AwaitModelFile && event
                == (PreflightEvent::ModelFileChecked { exists: true }))
            &&& (next is AwaitRuntime && !(state is AwaitRuntime)) ==> ((state is AwaitModelFile && event
                == (PreflightEvent::ModelFileChecked { exists: false })) || (state is AwaitVerification
                && (event matches PreflightEvent::Verified { result } && result is Ok)))
            &&& (next is Passed && !(state is Passed)) ==> (state is AwaitRuntime && event
                == (PreflightEvent::RuntimeResolved { found: true }))
            &&& next matches PreflightStateView::Failed(
                PreflightFailureView::NotEligible { index, reasons },
            ) ==> (!(state is Failed) ==> (index < manifest.models.len() && reasons
                == spec_incompatibilities(&manifest.models@[index as int], machine, allow_cpu_fallback)
                && reasons.len() > 0))
        }),
{
    assert(manifest.models@.len() == manifest.models.len());
    match state {
        PreflightState::Start => {
            if let Some(id) = requested {
                crate::catalog::lemma_first_index_is_first(manifest.models@, id@);
            }
        },
        PreflightState::AwaitConfig => {
            if let PreflightEvent::ConfigLoaded { selected_model_id } = event {
                crate::catalog::lemma_first_index_is_first(manifest.models@, selected_model_id@);
            }
        },
        _ => {},
    }
}

// ----------------------------------------------------------------------
// setup

/// Why setup stopped.
pub enum SetupFailure {
    AcceptWithoutModel,
    AcceptAndSkip,
    UnknownModel,
    /// The requested profile cannot run safely on this machine.
    NotSafe,
    NoEligibleProfiles,
    NotANumber,
    SelectionOutOfRange,
    Download(DownloadFailure),
}

/// Where setup stands.
pub enum SetupState {
    Start,
    /// The eligible profiles were offered; waiting for the typed number.
    AwaitProfileAnswer,
    /// The profile at `index` was chosen; waiting for the choice to be
    /// saved.
    AwaitSaved { index: usize },
    /// Waiting for the answer to "download now?".
    AwaitConfirm { index: usize },
    /// Waiting for the download to finish.
    AwaitDownload { index: usize },
    Done,
    Failed(SetupFailure),
}

/// What the application observed.
pub enum SetupEvent {
    Begin,
    ProfileAnswered { answer: String },
    Saved,
    Confirmed { answer: String },
    DownloadFinished { result: Result<(), DownloadFailure> },
}

/// What the application is asked to do, in order.
pub enum SetupAction {
    /// Show the machine and the portable directory.
    ReportMachine,
    /// List the eligible profiles, numbered from one.
    OfferProfiles,
    AskProfile,
    ReportNoEligible,
    ReportSelection { index: usize },
    /// Save the choice of the profile at `index`.
    SaveConfig { index: usize },
    ReportSkipped { index: usize },
    AskConfirm,
    ReportNotStarted,
    Download { index: usize },
}

/// The inputs of a setup run.
pub struct SetupRequest<'a> {
    pub requested: Option<&'a str>,
    pub accept_download: bool,
    pub skip_download: bool,
    pub allow_cpu_fallback: bool,
}

/// The step once the choice was saved.
pub open spec fn after_saving(request: &SetupRequest, index: usize) -> (SetupState, Seq<SetupAction>) {
    match decision_for(request.requested is Some, request.accept_download, request.skip_download) {
        DownloadDecision::Skip => (SetupState::Done, seq![SetupAction::ReportSkipped { index }]),
        DownloadDecision::Start => (
            SetupState::AwaitDownload { index },
            seq![SetupAction::Download { index }],
        ),
        DownloadDecision::Decline => (SetupState::Done, seq![SetupAction::ReportNotStarted]),
        DownloadDecision::Confirm => (SetupState::AwaitConfirm { index }, seq![SetupAction::AskConfirm]),
    }
}

/// The first step of setup.
pub open spec fn setup_begin(manifest: &Manifest, machine: &Machine, request: &SetupRequest) -> (
    SetupState,
    Seq<SetupAction>,
) {
    if request.accept_download && request.requested is None {
        (SetupState::Failed(SetupFailure::AcceptWithoutModel), seq![])
    } else if request.accept_download && request.skip_download {
        (SetupState::Failed(SetupFailure::AcceptAndSkip), seq![])
    } else {
        match request.requested {
            Some(id) => match first_index(manifest.models@, id@) {
                None => (SetupState::Failed(SetupFailure::UnknownModel), seq![SetupAction::ReportMachine]),
                Some(i) => if is_eligible(manifest.models@, machine, request.allow_cpu_fallback, i) {
                    (
                        SetupState::AwaitSaved { index: i },
                        seq![
                            SetupAction::ReportMachine,
                            SetupAction::ReportSelection { index: i },
                            SetupAction::SaveConfig { index: i },
                        ],
                    )
                } else {
                    (SetupState::Failed(SetupFailure::NotSafe), seq![SetupAction::ReportMachine])
                },
            },
            None => if eligible_indices(manifest.models@, machine, request.allow_cpu_fallback).len() == 0 {
                (
                    SetupState::Failed(SetupFailure::NoEligibleProfiles),
                    seq![SetupAction::ReportMachine, SetupAction::ReportNoEligible],
                )
            } else {
                (
                    SetupState::AwaitProfileAnswer,
                    seq![SetupAction::ReportMachine, SetupAction::OfferProfiles, SetupAction::AskProfile],
                )
            },
        }
    }
}

/// The step on the typed profile number.
pub open spec fn setup_answered(manifest: &Manifest, machine: &Machine, request: &SetupRequest, answer: Seq<char>) -> (
    SetupState,
    Seq<SetupAction>,
) {
    let offered = eligible_indices(manifest.models@, machine, request.allow_cpu_fallback);
    match selection(answer, offered.len() as usize) {
        Ok(position) => {
            let i = offered[position as int];
            (
                SetupState::AwaitSaved { index: i },
                seq![SetupAction::ReportSelection { index: i }, SetupAction::SaveConfig { index: i }],
            )
        },
        Err(e) => if e is NotANumber {
            (SetupState::Failed(SetupFailure::NotANumber), seq![])
        } else {
            (SetupState::Failed(SetupFailure::SelectionOutOfRange), seq![])
        },
    }
}

/// One step of setup. Events that do not fit the state leave it as it is.
pub open spec fn setup_next(manifest: &Manifest, machine: &Machine, request: &SetupRequest, state: SetupState, event: SetupEvent) -> (
    SetupState,
    Seq<SetupAction>,
) {
    match state {
        SetupState::Start => match event {
            SetupEvent::Begin => setup_begin(manifest, machine, request),
            _ => (state, seq![]),
        },
        SetupState::AwaitProfileAnswer => match event {
            SetupEvent::ProfileAnswered { answer } => setup_answered(manifest, machine, request, answer@),
            _ => (state, seq![]),
        },
        SetupState::AwaitSaved { index } => match event {
            SetupEvent::Saved => after_saving(request, index),
            _ => (state, seq![]),
        },
        SetupState::AwaitConfirm { index } => match event {
            SetupEvent::Confirmed { answer } => if affirmative(answer@) {
                (SetupState::AwaitDownload { index }, seq![SetupAction::Download { index }])
            } else {
                (SetupState::Done, seq![SetupAction::ReportNotStarted])
            },
            _ => (state, seq![]),
        },
        SetupState::AwaitDownload { index } => match event {
            SetupEvent::DownloadFinished { result } => match result {
                Ok(()) => (SetupState::Done, seq![]),
                Err(f) => (SetupState::Failed(SetupFailure::Download(f)), seq![]),
            },
            _ => (state, seq![]),
        },
        _ => (state, seq![]),
    }
}

fn setup_first(manifest: &Manifest, machine: &Machine, request: &SetupRequest) -> (r: (
    SetupState,
    Vec<SetupAction>,
))
    ensures
        (r.0, r.1@) == setup_begin(manifest, machine, request),
{
    match check_setup_flags(request.requested.is_some(), request.accept_download, request.skip_download) {
        Err(LaunchError::AcceptWithoutModel) => {
            return (SetupState::Failed(SetupFailure::AcceptWithoutModel), acts0());
        },
        Err(_) => {
            return (SetupState::Failed(SetupFailure::AcceptAndSkip), acts0());
        },
        Ok(()) => {},
    }
    match request.requested {
        Some(id) => match find_model_index(manifest, id) {
            None => (SetupState::Failed(SetupFailure::UnknownModel), acts1(SetupAction::ReportMachine)),
            Some(i) => {
                if eligible_now(manifest, machine, request.allow_cpu_fallback, i) {
                    (
                        SetupState::AwaitSaved { index: i },
                        acts3(
                            SetupAction::ReportMachine,
                            SetupAction::ReportSelection { index: i },
                            SetupAction::SaveConfig { index: i },
                        ),
                    )
                } else {
                    (SetupState::Failed(SetupFailure::NotSafe), acts1(SetupAction::ReportMachine))
                }
            },
        },
        None => {
            let offered = eligible_models(manifest, machine, request.allow_cpu_fallback);
            if offered.len() == 0 {
                (
                    SetupState::Failed(SetupFailure::NoEligibleProfiles),
                    acts2(SetupAction::ReportMachine, SetupAction::ReportNoEligible),
                )
            } else {
                (
                    SetupState::AwaitProfileAnswer,
                    acts3(SetupAction::ReportMachine, SetupAction::OfferProfiles, SetupAction::AskProfile),
                )
            }
        },
    }
}

fn setup_pick(manifest: &Manifest, machine: &Machine, request: &SetupRequest, answer: &str) -> (r: (
    SetupState,
    Vec<SetupAction>,
))
    ensures
        (r.0, r.1@) == setup_answered(manifest, machine, request, answer@),
{
    let offered = eligible_models(manifest, machine, request.allow_cpu_fallback);
    match parse_selection(answer, offered.len()) {
        Ok(position) => {
            let i = offered[position];
            (
                SetupState::AwaitSaved { index: i },
                acts2(SetupAction::ReportSelection { index: i }, SetupAction::SaveConfig { index: i }),
            )
        },
        Err(e) => match e {
            LaunchError::NotANumber => (SetupState::Failed(SetupFailure::NotANumber), acts0()),
            _ => (SetupState::Failed(SetupFailure::SelectionOutOfRange), acts0()),
        },
    }
}

/// Advances setup by one event.
pub fn setup_step(manifest: &Manifest, machine: &Machine, request: &SetupRequest, state: SetupState, event: SetupEvent) -> (r: (
    SetupState,
    Vec<SetupAction>,
))
    ensures
        (r.0, r.1@) == setup_next(manifest, machine, request, state, event),
{
    match state {
        SetupState::Start => match event {
            SetupEvent::Begin => setup_first(manifest, machine, request),
            _ => (state, acts0()),
        },
        SetupState::AwaitProfileAnswer => match event {
            SetupEvent::ProfileAnswered { answer } => setup_pick(manifest, machine, request, answer.as_str()),
            _ => (state, acts0()),
        },
        SetupState::AwaitSaved { index } => match event {
            SetupEvent::Saved => match download_decision(
                request.requested.is_some(),
                request.accept_download,
                request.skip_download,
            ) {
                DownloadDecision::Skip => (SetupState::Done, acts1(SetupAction::ReportSkipped { index })),
                DownloadDecision::Start => (
                    SetupState::AwaitDownload { index },
                    acts1(SetupAction::Download { index }),
                ),
                DownloadDecision::Decline => (SetupState::Done, acts1(SetupAction::ReportNotStarted)),
                DownloadDecision::Confirm => (
                    SetupState::AwaitConfirm { index },
                    acts1(SetupAction::AskConfirm),
                ),
            },
            _ => (state, acts0()),
        },
        SetupState::AwaitConfirm { index } => match event {
            SetupEvent::Confirmed { answer } => {
                if is_affirmative(answer.as_str()) {
                    (SetupState::AwaitDownload { index }, acts1(SetupAction::Download { index }))
                } else {
                    (SetupState::Done, acts1(SetupAction::ReportNotStarted))
                }
            },
            _ => (state, acts0()),
        },
        SetupState::AwaitDownload { index } => match event {
            SetupEvent::DownloadFinished { result } => match result {
                Ok(()) => (SetupState::Done, acts0()),
                Err(f) => (SetupState::Failed(SetupFailure::Download(f)), acts0()),
            },
            _ => (state, acts0()),
        },
        _ => (state, acts0()),
    }
}

/// Setup saves only a profile that is safe on this machine, whether it was
/// named on the command line or picked from the offered list; and it
/// downloads only after saving, with `--model` and `--accept-download`, or
/// after a yes to the question.
pub proof fn setup_saves_only_safe_profiles(
    manifest: &Manifest,
    machine: &Machine,
    request: &SetupRequest,
    state: SetupState,
    event: SetupEvent,
    index: usize,
)
    ensures
        ({
            let (next, actions) = setup_next(manifest, machine, request, state, event);
            &&& actions.contains(SetupAction::SaveConfig { index }) ==> index < manifest.models@.len()
                && is_eligible(manifest.models@, machine, request.allow_cpu_fallback, index)
            &&& actions.contains(SetupAction::Download { index }) ==> ((state == SetupState::AwaitSaved { index }
                && request.requested is Some && request.accept_download && !request.skip_download) || (state
                == SetupState::AwaitConfirm { index } && (event matches SetupEvent::Confirmed { answer } && affirmative(answer@))))
        }),
{
    let (next, actions) = setup_next(manifest, machine, request, state, event);
    vstd::std_specs::vec::axiom_spec_len(&manifest.models);
    if let Some(id) = request.requested {
        if has_id(manifest.models@, id@) {
            crate::catalog::lemma_first_exists(manifest.models@, id@);
            let i = choose|i: int| first_with_id(manifest.models@, id@, i);
            assert(first_with_id(manifest.models@, id@, i));
        }
    }
    let offered = eligible_indices(manifest.models@, machine, request.allow_cpu_fallback);
    let all = Seq::new(manifest.models@.len(), |i: int| i as usize);
    let pred = |i: usize| is_eligible(manifest.models@, machine, request.allow_cpu_fallback, i);
    broadcast use vstd::seq_lib::group_filter_ensures;
    if actions.contains(SetupAction::SaveConfig { index }) {
        let k = choose|k: int| 0 <= k < actions.len() && actions[k] == SetupAction::SaveConfig { index };
        assert(actions[k] == SetupAction::SaveConfig { index });
        if state is AwaitProfileAnswer {
            if let SetupEvent::ProfileAnswered { answer } = event {
                if let Ok(position) = selection(answer@, offered.len() as usize) {
                    let x = offered[position as int];
                    assert(offered.contains(x));
                    all.lemma_filter_contains_rev(pred, x);
                    let j = choose|j: int| 0 <= j < all.len() && all[j] == x;
                    assert(all[j] == j as usize);
                }
            }
        }
    }
    if actions.contains(SetupAction::Download { index }) {
        let k = choose|k: int| 0 <= k < actions.len() && actions[k] == SetupAction::Download { index };
        assert(actions[k] == SetupAction::Download { index });
    }
}

// ----------------------------------------------------------------------
// launch

/// Why launching stopped.
pub enum LaunchFailure {
    Verify(VerifyFailure),
    NoRuntime,
    /// The runtime ran and reported failure.
    RuntimeFailed,
}

/// Where a launch stands.
pub enum LaunchState {
    Start,
    AwaitVerification,
    /// The model file is verified and no override was given; waiting for
    /// a runtime found without one (bundled or from the environment).
    AwaitBundledRuntime,
    /// Waiting for the runtime to start: the override when one was given.
    AwaitRuntime,
    /// The runtime runs; waiting for it to exit.
    AwaitExit,
    Done,
    Failed(LaunchFailure),
}

/// What the application observed.
pub enum LaunchEvent {
    Begin,
    Verified { result: Result<(), VerifyFailure> },
    RuntimeResolved { found: bool },
    Exited { success: bool },
}

/// What the application is asked to do, in order.
pub enum LaunchAction {
    VerifyModel,
    /// Find a runtime without the override.
    ResolveBundledRuntime,
    /// Find the runtime to start, the override included.
    ResolveRuntime,
    LogLaunch,
    ReportLaunch,
    /// Start the runtime on the model file and wait for it.
    StartRuntime,
}

/// One step of a launch; `has_override` tells whether a runtime was given
/// on the command line, which is then accepted as it is. Events that do not
/// fit the state leave it as it is.
pub open spec fn launch_next(has_override: bool, state: LaunchState, event: LaunchEvent) -> (
    LaunchState,
    Seq<LaunchAction>,
) {
    match state {
        LaunchState::Start => match event {
            LaunchEvent::Begin => (LaunchState::AwaitVerification, seq![LaunchAction::VerifyModel]),
            _ => (state, seq![]),
        },
        LaunchState::AwaitVerification => match event {
            LaunchEvent::Verified { result } => match result {
                Ok(()) => if has_override {
                    (LaunchState::AwaitRuntime, seq![LaunchAction::ResolveRuntime])
                } else {
                    (LaunchState::AwaitBundledRuntime, seq![LaunchAction::ResolveBundledRuntime])
                },
                Err(f) => (LaunchState::Failed(LaunchFailure::Verify(f)), seq![]),
            },
            _ => (state, seq![]),
        },
        LaunchState::AwaitBundledRuntime => match event {
            LaunchEvent::RuntimeResolved { found } => if found {
                (LaunchState::AwaitRuntime, seq![LaunchAction::ResolveRuntime])
            } else {
                (LaunchState::Failed(LaunchFailure::NoRuntime), seq![])
            },
            _ => (state, seq![]),
        },
        LaunchState::AwaitRuntime => match event {
            LaunchEvent::RuntimeResolved { found } => if found {
                (
                    LaunchState::AwaitExit,
                    seq![LaunchAction::LogLaunch, LaunchAction::ReportLaunch, LaunchAction::StartRuntime],
                )
            } else {
                (LaunchState::Failed(LaunchFailure::NoRuntime), seq![])
            },
            _ => (state, seq![]),
        },
        LaunchState::AwaitExit => match event {
            LaunchEvent::Exited { success } => if success {
                (LaunchState::Done, seq![])
            } else {
                (LaunchState::Failed(LaunchFailure::RuntimeFailed), seq![])
            },
            _ => (state, seq![]),
        },
        _ => (state, seq![]),
    }
}

/// Advances a launch by one event.
pub fn launch_step(has_override: bool, state: LaunchState, event: LaunchEvent) -> (r: (
    LaunchState,
    Vec<LaunchAction>,
))
    ensures
        (r.0, r.1@) == launch_next(has_override, state, event),
{
    match state {
        LaunchState::Start => match event {
            LaunchEvent::Begin => (LaunchState::AwaitVerification, acts1(LaunchAction::VerifyModel)),
            _ => (state, acts0()),
        },
        LaunchState::AwaitVerification => match event {
            LaunchEvent::Verified { result } => match result {
                Ok(()) => {
                    if has_override {
                        (LaunchState::AwaitRuntime, acts1(LaunchAction::ResolveRuntime))
                    } else {
                        (LaunchState::AwaitBundledRuntime, acts1(LaunchAction::ResolveBundledRuntime))
                    }
                },
                Err(f) => (LaunchState::Failed(LaunchFailure::Verify(f)), acts0()),
            },
            _ => (state, acts0()),
        },
        LaunchState::AwaitBundledRuntime => match event {
            LaunchEvent::RuntimeResolved { found } => {
                if found {
                    (LaunchState::AwaitRuntime, acts1(LaunchAction::ResolveRuntime))
                } else {
                    (LaunchState::Failed(LaunchFailure::NoRuntime), acts0())
                }
            },
            _ => (state, acts0()),
        },
        LaunchState::AwaitRuntime => match event {
            LaunchEvent::RuntimeResolved { found } => {
                if found {
                    (
                        LaunchState::AwaitExit,
                        acts3(LaunchAction::LogLaunch, LaunchAction::ReportLaunch, LaunchAction::StartRuntime),
                    )
                } else {
                    (LaunchState::Failed(LaunchFailure::NoRuntime), acts0())
                }
            },
            _ => (state, acts0()),
        },
        LaunchState::AwaitExit => match event {
            LaunchEvent::Exited { success } => {
                if success {
                    (LaunchState::Done, acts0())
                } else {
                    (LaunchState::Failed(LaunchFailure::RuntimeFailed), acts0())
                }
            },
            _ => (state, acts0()),
        },
        _ => (state, acts0()),
    }
}

/// A runtime is started only on a verified model file and only once the
/// runtime to start was found. Without an override a runtime must first be
/// found without one; with an override, a verified model goes straight to
/// the runtime given, so an override alone is accepted.
pub proof fn launch_starts_only_verified_models(has_override: bool, state: LaunchState, event: LaunchEvent)
    ensures
        ({
            let (next, actions) = launch_next(has_override, state, event);
            &&& actions.contains(LaunchAction::StartRuntime) ==> (state is AwaitRuntime && event
                == (LaunchEvent::RuntimeResolved { found: true }))
            &&& (next is AwaitRuntime && !(state is AwaitRuntime)) ==> ((state is AwaitBundledRuntime
                && event == (LaunchEvent::RuntimeResolved { found: true })) || (
            state is AwaitVerification && has_override && (event matches LaunchEvent::Verified {
                result,
            } && result is Ok)))
            &&& (next is AwaitBundledRuntime && !(state is AwaitBundledRuntime)) ==> (state is AwaitVerification
                && !has_override && (event matches LaunchEvent::Verified { result } && result is Ok))
            &&& (has_override && state is AwaitVerification && (event matches LaunchEvent::Verified {
                result,
            } && result is Ok)) ==> (next is AwaitRuntime && actions == seq![LaunchAction::ResolveRuntime])
        }),
{
    let (next, actions) = launch_next(has_override, state, event);
    if actions.contains(LaunchAction::StartRuntime) {
        let k = choose|k: int| 0 <= k < actions.len() && actions[k] == LaunchAction::StartRuntime;
        assert(actions[k] == LaunchAction::StartRuntime);
    }
}

// ----------------------------------------------------------------------
// status

/// Where a status report stands. A report never fails on what it finds.
pub enum StatusState {
    Start,
    AwaitConfig,
    AwaitModelFile { index: usize },
    AwaitVerification { index: usize },
    AwaitPartial { index: usize },
    AwaitRuntime { index: usize },
    Done,
}

/// What the application observed.
pub enum StatusEvent {
    Begin,
    /// The identifier saved by setup, or `None` when setup has not run or
    /// its file could not be read.
    ConfigLoaded { selected_model_id: Option<String> },
    ModelFileChecked { exists: bool },
    Verified { ok: bool },
    /// The partial file's size when there is one.
    PartialChecked { size: Option<u64> },
    RuntimeResolved { found: bool },
}

/// What the application is asked to do, in order.
pub enum StatusAction {
    /// Show the machine, the portable directory and the log file.
    ReportOverview,
    LoadConfig,
    ReportNotConfigured,
    /// The saved identifier is not in the catalog.
    ReportUnlisted,
    ReportSelected { index: usize },
    /// Show whether the profile is eligible, or why not.
    ReportCompatibility { index: usize },
    CheckModelFile { index: usize },
    ReportModelMissing { index: usize },
    VerifyModel { index: usize },
    ReportVerified,
    ReportVerificationFailed,
    CheckPartial { index: usize },
    ReportPartial { size: u64 },
    ResolveRuntime { index: usize },
    ReportRuntime,
    ReportRuntimeUnavailable,
}

/// One step of a status report. Events that do not fit the state leave it
/// as it is.
pub open spec fn status_next(manifest: &Manifest, state: StatusState, event: StatusEvent) -> (
    StatusState,
    Seq<StatusAction>,
) {
    match state {
        StatusState::Start => match event {
            StatusEvent::Begin => (
                StatusState::AwaitConfig,
                seq![StatusAction::ReportOverview, StatusAction::LoadConfig],
            ),
            _ => (state, seq![]),
        },
        StatusState::AwaitConfig => match event {
            StatusEvent::ConfigLoaded { selected_model_id } => match selected_model_id {
                None => (StatusState::Done, seq![StatusAction::ReportNotConfigured]),
                Some(id) => match first_index(manifest.models@, id@) {
                    None => (StatusState::Done, seq![StatusAction::ReportUnlisted]),
                    Some(i) => (
                        StatusState::AwaitModelFile { index: i },
                        seq![
                            StatusAction::ReportSelected { index: i },
                            StatusAction::ReportCompatibility { index: i },
                            StatusAction::CheckModelFile { index: i },
                        ],
                    ),
                },
            },
            _ => (state, seq![]),
        },
        StatusState::AwaitModelFile { index } => match event {
            StatusEvent::ModelFileChecked { exists } => if exists {
                (StatusState::AwaitVerification { index }, seq![StatusAction::VerifyModel { index }])
            } else {
                (
                    StatusState::AwaitPartial { index },
                    seq![StatusAction::ReportModelMissing { index }, StatusAction::CheckPartial { index }],
                )
            },
            _ => (state, seq![]),
        },
        StatusState::AwaitVerification { index } => match event {
            StatusEvent::Verified { ok } => (
                StatusState::AwaitPartial { index },
                seq![
                    if ok {
                        StatusAction::ReportVerified
                    } else {
                        StatusAction::ReportVerificationFailed
                    },
                    StatusAction::CheckPartial { index },
                ],
            ),
            _ => (state, seq![]),
        },
        StatusState::AwaitPartial { index } => match event {
            StatusEvent::PartialChecked { size } => match size {
                Some(bytes) => (
                    StatusState::AwaitRuntime { index },
                    seq![StatusAction::ReportPartial { size: bytes }, StatusAction::ResolveRuntime { index }],
                ),
                None => (StatusState::AwaitRuntime { index }, seq![StatusAction::ResolveRuntime { index }]),
            },
            _ => (state, seq![]),
        },
        StatusState::AwaitRuntime { index } => match event {
            StatusEvent::RuntimeResolved { found } => (
                StatusState::Done,
                seq![
                    if found {
                        StatusAction::ReportRuntime
                    } else {
                        StatusAction::ReportRuntimeUnavailable
                    },
                ],
            ),
            _ => (state, seq![]),
        },
        _ => (state, seq![]),
    }
}

/// Advances a status report by one event.
pub fn status_step(manifest: &Manifest, state: StatusState, event: StatusEvent) -> (r: (
    StatusState,
    Vec<StatusAction>,
))
    ensures
        (r.0, r.1@) == status_next(manifest, state, event),
{
    match state {
        StatusState::Start => match event {
            StatusEvent::Begin => (
                StatusState::AwaitConfig,
                acts2(StatusAction::ReportOverview, StatusAction::LoadConfig),
            ),
            _ => (state, acts0()),
        },
        StatusState::AwaitConfig => match event {
            StatusEvent::ConfigLoaded { selected_model_id } => match selected_model_id {
                None => (StatusState::Done, acts1(StatusAction::ReportNotConfigured)),
                Some(id) => match find_model_index(manifest, id.as_str()) {
                    None => (StatusState::Done, acts1(StatusAction::ReportUnlisted)),
                    Some(i) => (
                        StatusState::AwaitModelFile { index: i },
                        acts3(
                            StatusAction::ReportSelected { index: i },
                            StatusAction::ReportCompatibility { index: i },
                            StatusAction::CheckModelFile { index: i },
                        ),
                    ),
                },
            },
            _ => (state, acts0()),
        },
        StatusState::AwaitModelFile { index } => match event {
            StatusEvent::ModelFileChecked { exists } => {
                if exists {
                    (StatusState::AwaitVerification { index }, acts1(StatusAction::VerifyModel { index }))
                } else {
                    (
                        StatusState::AwaitPartial { index },
                        acts2(StatusAction::ReportModelMissing { index }, StatusAction::CheckPartial { index }),
                    )
                }
            },
            _ => (state, acts0()),
        },
        StatusState::AwaitVerification { index } => match event {
            StatusEvent::Verified { ok } => {
                let report = if ok {
                    StatusAction::ReportVerified
                } else {
                    StatusAction::ReportVerificationFailed
                };
                (StatusState::AwaitPartial { index }, acts2(report, StatusAction::CheckPartial { index }))
            },
            _ => (state, acts0()),
        },
        StatusState::AwaitPartial { index } => match event {
            StatusEvent::PartialChecked { size } => match size {
                Some(bytes) => (
                    StatusState::AwaitRuntime { index },
                    acts2(StatusAction::ReportPartial { size: bytes }, StatusAction::ResolveRuntime { index }),
                ),
                None => (StatusState::AwaitRuntime { index }, acts1(StatusAction::ResolveRuntime { index })),
            },
            _ => (state, acts0()),
        },
        StatusState::AwaitRuntime { index } => match event {
            StatusEvent::RuntimeResolved { found } => {
                let report = if found {
                    StatusAction::ReportRuntime
                } else {
                    StatusAction::ReportRuntimeUnavailable
                };
                (StatusState::Done, acts1(report))
            },
            _ => (state, acts0()),
        },
        _ => (state, acts0()),
    }
}

/// Status succeeds when setup has not run: it reports that setup is missing
/// and stops without touching a model file.
pub proof fn status_without_setup_reports_it(manifest: &Manifest)
    ensures
        status_next(manifest, StatusState::AwaitConfig, StatusEvent::ConfigLoaded { selected_model_id: None })
            == (StatusState::Done, seq![StatusAction::ReportNotConfigured]),
{
}

/// Status reports the model file as verified exactly when its verification
/// succeeded and as failed exactly when it failed, and goes on to the
/// partial download either way.
pub proof fn status_reports_verification_result(manifest: &Manifest, state: StatusState, event: StatusEvent)
    ensures
        ({
            let (next, actions) = status_next(manifest, state, event);
            &&& actions.contains(StatusAction::ReportVerified) <==> (state is AwaitVerification && event
                == (StatusEvent::Verified { ok: true }))
            &&& actions.contains(StatusAction::ReportVerificationFailed) <==> (state is AwaitVerification
                && event == (StatusEvent::Verified { ok: false }))
            &&& state matches StatusState::AwaitVerification { index } ==> (event is Verified ==> (next
                == StatusState::AwaitPartial { index } && actions.last() == StatusAction::CheckPartial { index }))
        }),
{
    let (next, actions) = status_next(manifest, state, event);
    if actions.contains(StatusAction::ReportVerified) {
        let i = choose|i: int| 0 <= i < actions.len() && actions[i] == StatusAction::ReportVerified;
        assert(actions[i] == StatusAction::ReportVerified);
    }
    if actions.contains(StatusAction::ReportVerificationFailed) {
        let i = choose|i: int| 0 <= i < actions.len() && actions[i] == StatusAction::ReportVerificationFailed;
        assert(actions[i] == StatusAction::ReportVerificationFailed);
    }
    if state is AwaitVerification {
        if let StatusEvent::Verified { ok } = event {
            if ok {
                assert(actions[0] == StatusAction::ReportVerified);
            } else {
                assert(actions[0] == StatusAction::ReportVerificationFailed);
            }
        }
    }
}

} // verus!
