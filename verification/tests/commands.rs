use ai_pendrive_launcher::catalog::{Manifest, Model, RuntimeProfile};
use ai_pendrive_launcher::commands::{
    launch_step, preflight_step, setup_step, status_step, LaunchAction, LaunchEvent, LaunchFailure, LaunchState, PreflightAction,
    PreflightEvent, PreflightFailure, PreflightState, SetupAction, SetupEvent, SetupFailure, SetupRequest, SetupState, StatusAction,
    StatusEvent, StatusState,
};
use ai_pendrive_launcher::compat::Incompatibility;
use ai_pendrive_launcher::download::DownloadFailure;
use ai_pendrive_launcher::machine::{GpuInfo, Machine};
use ai_pendrive_launcher::verify::VerifyFailure;

const GIB: u64 = 1 << 30;

fn model(id: &str, enabled: bool) -> Model {
    Model {
        id: id.to_string(),
        name: format!("{id} name"),
        description: "test profile".to_string(),
        filename: format!("{id}.gguf"),
        url: "https://example.invalid/model.gguf".to_string(),
        sha256: "ab".repeat(32),
        size_bytes: GIB,
        min_memory_bytes: 4 * GIB,
        min_free_disk_bytes: 2 * GIB,
        min_vram_bytes: None,
        supported_os: vec!["linux".to_string()],
        supported_arch: vec!["x86_64".to_string()],
        runtime_profile: RuntimeProfile::Cpu,
        enabled,
    }
}

fn catalog() -> Manifest {
    Manifest::checked(1, vec![model("example-light-cpu", false), model("vendor-a", true), model("vendor-b", true)]).ok().unwrap()
}

fn host() -> Machine {
    Machine {
        os: "linux".to_string(),
        arch: "x86_64".to_string(),
        memory_bytes: 16 * GIB,
        available_memory_bytes: 8 * GIB,
        free_disk_bytes: 100 * GIB,
        gpu: GpuInfo::unavailable(),
    }
}

fn request<'a>(requested: Option<&'a str>, accept: bool, skip: bool) -> SetupRequest<'a> {
    SetupRequest { requested, accept_download: accept, skip_download: skip, allow_cpu_fallback: false }
}

#[test]
fn preflight_passes_for_an_eligible_profile() {
    let manifest = catalog();
    let machine = host();
    let step = |s, e| preflight_step(&manifest, &machine, false, Some("vendor-a"), s, e);
    let (s, a) = step(PreflightState::Start, PreflightEvent::Begin);
    assert!(matches!(
        a.as_slice(),
        [PreflightAction::ReportHeader, PreflightAction::ReportProfile { index: 1 }, PreflightAction::ReportCompatible, PreflightAction::CheckModelFile { index: 1 }]
    ));
    let (s, a) = step(s, PreflightEvent::ModelFileChecked { exists: true });
    assert!(matches!(a.as_slice(), [PreflightAction::VerifyModel { index: 1 }]));
    let (s, a) = step(s, PreflightEvent::Verified { result: Ok(()) });
    assert!(matches!(a.as_slice(), [PreflightAction::ReportVerified, PreflightAction::ResolveRuntime { index: 1 }]));
    let (s, a) = step(s, PreflightEvent::RuntimeResolved { found: true });
    assert!(matches!(s, PreflightState::Passed { index: 1 }));
    assert!(matches!(a.as_slice(), [PreflightAction::ReportRuntime, PreflightAction::ReportPassed, PreflightAction::LogPassed { index: 1 }]));
}

#[test]
fn preflight_refuses_an_ineligible_profile_before_touching_files() {
    let manifest = catalog();
    let machine = host();
    let (s, a) = preflight_step(&manifest, &machine, false, Some("example-light-cpu"), PreflightState::Start, PreflightEvent::Begin);
    match s {
        PreflightState::Failed(PreflightFailure::NotEligible { index, reasons }) => {
            assert_eq!(index, 0);
            assert!(matches!(reasons[0], Incompatibility::Disabled));
        }
        _ => panic!("expected a not-eligible failure"),
    }
    assert!(matches!(a.as_slice(), [PreflightAction::ReportHeader, PreflightAction::ReportProfile { index: 0 }]));
    let (s, _) = preflight_step(&manifest, &machine, false, Some("nope"), PreflightState::Start, PreflightEvent::Begin);
    assert!(matches!(s, PreflightState::Failed(PreflightFailure::UnknownModel)));
}

#[test]
fn preflight_reads_the_saved_choice_when_none_is_requested() {
    let manifest = catalog();
    let machine = host();
    let (s, a) = preflight_step(&manifest, &machine, false, None, PreflightState::Start, PreflightEvent::Begin);
    assert!(matches!(s, PreflightState::AwaitConfig));
    assert!(matches!(a.as_slice(), [PreflightAction::ReportHeader, PreflightAction::LoadConfig]));
    let (s, _) = preflight_step(&manifest, &machine, false, None, s, PreflightEvent::ConfigLoaded { selected_model_id: "vendor-b".to_string() });
    assert!(matches!(s, PreflightState::AwaitModelFile { index: 2 }));
    let (s, a) = preflight_step(&manifest, &machine, false, None, s, PreflightEvent::ModelFileChecked { exists: false });
    assert!(matches!(a.as_slice(), [PreflightAction::ReportNotDownloaded { index: 2 }, PreflightAction::ResolveRuntime { index: 2 }]));
    let (s, _) = preflight_step(&manifest, &machine, false, None, s, PreflightEvent::RuntimeResolved { found: false });
    assert!(matches!(s, PreflightState::Failed(PreflightFailure::NoRuntime)));
}

#[test]
fn preflight_stops_on_a_bad_model_file() {
    let manifest = catalog();
    let machine = host();
    let failure = VerifyFailure::SizeMismatch { expected: GIB, actual: 3 };
    let (s, a) = preflight_step(&manifest, &machine, false, None, PreflightState::AwaitVerification { index: 1 }, PreflightEvent::Verified { result: Err(failure) });
    assert!(a.is_empty());
    assert!(matches!(s, PreflightState::Failed(PreflightFailure::Verify(VerifyFailure::SizeMismatch { actual: 3, .. }))));
}

#[test]
fn setup_with_a_disabled_model_saves_nothing() {
    let manifest = catalog();
    let machine = host();
    let req = request(Some("example-light-cpu"), false, false);
    let (s, a) = setup_step(&manifest, &machine, &req, SetupState::Start, SetupEvent::Begin);
    assert!(matches!(s, SetupState::Failed(SetupFailure::NotSafe)));
    assert!(matches!(a.as_slice(), [SetupAction::ReportMachine]));
}

#[test]
fn setup_flags_are_checked_first() {
    let manifest = catalog();
    let machine = host();
    let (s, a) = setup_step(&manifest, &machine, &request(None, true, false), SetupState::Start, SetupEvent::Begin);
    assert!(matches!(s, SetupState::Failed(SetupFailure::AcceptWithoutModel)));
    assert!(a.is_empty());
    let (s, a) = setup_step(&manifest, &machine, &request(Some("vendor-a"), true, true), SetupState::Start, SetupEvent::Begin);
    assert!(matches!(s, SetupState::Failed(SetupFailure::AcceptAndSkip)));
    assert!(a.is_empty());
}

#[test]
fn explicit_setup_downloads_only_with_acceptance() {
    let manifest = catalog();
    let machine = host();
    let req = request(Some("vendor-a"), false, false);
    let (s, a) = setup_step(&manifest, &machine, &req, SetupState::Start, SetupEvent::Begin);
    assert!(matches!(a.as_slice(), [SetupAction::ReportMachine, SetupAction::ReportSelection { index: 1 }, SetupAction::SaveConfig { index: 1 }]));
    let (s, a) = setup_step(&manifest, &machine, &req, s, SetupEvent::Saved);
    assert!(matches!(s, SetupState::Done));
    assert!(matches!(a.as_slice(), [SetupAction::ReportNotStarted]));
    let accepted = request(Some("vendor-a"), true, false);
    let (s, a) = setup_step(&manifest, &machine, &accepted, SetupState::AwaitSaved { index: 1 }, SetupEvent::Saved);
    assert!(matches!(a.as_slice(), [SetupAction::Download { index: 1 }]));
    let (s, _) = setup_step(&manifest, &machine, &accepted, s, SetupEvent::DownloadFinished { result: Err(DownloadFailure::PartialTooLarge) });
    assert!(matches!(s, SetupState::Failed(SetupFailure::Download(DownloadFailure::PartialTooLarge))));
    let skipped = request(Some("vendor-a"), false, true);
    let (s, a) = setup_step(&manifest, &machine, &skipped, SetupState::AwaitSaved { index: 1 }, SetupEvent::Saved);
    assert!(matches!(s, SetupState::Done));
    assert!(matches!(a.as_slice(), [SetupAction::ReportSkipped { index: 1 }]));
}

#[test]
fn interactive_setup_offers_only_eligible_profiles() {
    let manifest = catalog();
    let machine = host();
    let req = request(None, false, false);
    let (s, a) = setup_step(&manifest, &machine, &req, SetupState::Start, SetupEvent::Begin);
    assert!(matches!(a.as_slice(), [SetupAction::ReportMachine, SetupAction::OfferProfiles, SetupAction::AskProfile]));
    let (s2, a) = setup_step(&manifest, &machine, &req, s, SetupEvent::ProfileAnswered { answer: "2\n".to_string() });
    assert!(matches!(a.as_slice(), [SetupAction::ReportSelection { index: 2 }, SetupAction::SaveConfig { index: 2 }]));
    let (s3, a) = setup_step(&manifest, &machine, &req, s2, SetupEvent::Saved);
    assert!(matches!(a.as_slice(), [SetupAction::AskConfirm]));
    let (s4, a) = setup_step(&manifest, &machine, &req, s3, SetupEvent::Confirmed { answer: "Y\n".to_string() });
    assert!(matches!(s4, SetupState::AwaitDownload { index: 2 }));
    assert!(matches!(a.as_slice(), [SetupAction::Download { index: 2 }]));
    let (done, a) = setup_step(&manifest, &machine, &req, SetupState::AwaitConfirm { index: 2 }, SetupEvent::Confirmed { answer: "no".to_string() });
    assert!(matches!(done, SetupState::Done));
    assert!(matches!(a.as_slice(), [SetupAction::ReportNotStarted]));
    let (bad, _) = setup_step(&manifest, &machine, &req, SetupState::AwaitProfileAnswer, SetupEvent::ProfileAnswered { answer: "3".to_string() });
    assert!(matches!(bad, SetupState::Failed(SetupFailure::SelectionOutOfRange)));
    let (bad, _) = setup_step(&manifest, &machine, &req, SetupState::AwaitProfileAnswer, SetupEvent::ProfileAnswered { answer: "x".to_string() });
    assert!(matches!(bad, SetupState::Failed(SetupFailure::NotANumber)));
}

#[test]
fn interactive_setup_without_eligible_profiles_stops() {
    let manifest = Manifest::checked(1, vec![model("example-light-cpu", false)]).ok().unwrap();
    let machine = host();
    let (s, a) = setup_step(&manifest, &machine, &request(None, false, false), SetupState::Start, SetupEvent::Begin);
    assert!(matches!(s, SetupState::Failed(SetupFailure::NoEligibleProfiles)));
    assert!(matches!(a.as_slice(), [SetupAction::ReportMachine, SetupAction::ReportNoEligible]));
}

#[test]
fn launch_starts_the_runtime_after_every_check() {
    let (s, a) = launch_step(false, LaunchState::Start, LaunchEvent::Begin);
    assert!(matches!(a.as_slice(), [LaunchAction::VerifyModel]));
    let (s, a) = launch_step(false, s, LaunchEvent::Verified { result: Ok(()) });
    assert!(matches!(a.as_slice(), [LaunchAction::ResolveBundledRuntime]));
    let (s, a) = launch_step(false, s, LaunchEvent::RuntimeResolved { found: true });
    assert!(matches!(a.as_slice(), [LaunchAction::ResolveRuntime]));
    let (s, a) = launch_step(false, s, LaunchEvent::RuntimeResolved { found: true });
    assert!(matches!(a.as_slice(), [LaunchAction::LogLaunch, LaunchAction::ReportLaunch, LaunchAction::StartRuntime]));
    let (done, _) = launch_step(false, LaunchState::AwaitExit, LaunchEvent::Exited { success: true });
    assert!(matches!(done, LaunchState::Done));
    let (failed, _) = launch_step(false, s, LaunchEvent::Exited { success: false });
    assert!(matches!(failed, LaunchState::Failed(LaunchFailure::RuntimeFailed)));
    let (none, a) = launch_step(false, LaunchState::AwaitBundledRuntime, LaunchEvent::RuntimeResolved { found: false });
    assert!(a.is_empty());
    assert!(matches!(none, LaunchState::Failed(LaunchFailure::NoRuntime)));
    let (bad, _) =
        launch_step(false, LaunchState::AwaitVerification, LaunchEvent::Verified { result: Err(VerifyFailure::NotDownloaded) });
    assert!(matches!(bad, LaunchState::Failed(LaunchFailure::Verify(VerifyFailure::NotDownloaded))));
}

#[test]
fn runtime_override_alone_is_accepted() {
    let (s, _) = launch_step(true, LaunchState::Start, LaunchEvent::Begin);
    let (s, a) = launch_step(true, s, LaunchEvent::Verified { result: Ok(()) });
    assert!(matches!(a.as_slice(), [LaunchAction::ResolveRuntime]));
    assert!(matches!(s, LaunchState::AwaitRuntime));
    let (s, a) = launch_step(true, s, LaunchEvent::RuntimeResolved { found: true });
    assert!(matches!(a.as_slice(), [LaunchAction::LogLaunch, LaunchAction::ReportLaunch, LaunchAction::StartRuntime]));
    assert!(matches!(s, LaunchState::AwaitExit));
}

#[test]
fn status_reports_without_setup() {
    let manifest = catalog();
    let (s, a) = status_step(&manifest, StatusState::Start, StatusEvent::Begin);
    assert!(matches!(a.as_slice(), [StatusAction::ReportOverview, StatusAction::LoadConfig]));
    let (s, a) = status_step(&manifest, s, StatusEvent::ConfigLoaded { selected_model_id: None });
    assert!(matches!(s, StatusState::Done));
    assert!(matches!(a.as_slice(), [StatusAction::ReportNotConfigured]));
    let (s, a) = status_step(&manifest, StatusState::AwaitConfig, StatusEvent::ConfigLoaded { selected_model_id: Some("gone".to_string()) });
    assert!(matches!(s, StatusState::Done));
    assert!(matches!(a.as_slice(), [StatusAction::ReportUnlisted]));
}

#[test]
fn status_walks_through_a_configured_model() {
    let manifest = catalog();
    let (s, a) = status_step(&manifest, StatusState::AwaitConfig, StatusEvent::ConfigLoaded { selected_model_id: Some("vendor-b".to_string()) });
    assert!(matches!(
        a.as_slice(),
        [StatusAction::ReportSelected { index: 2 }, StatusAction::ReportCompatibility { index: 2 }, StatusAction::CheckModelFile { index: 2 }]
    ));
    let (s, a) = status_step(&manifest, s, StatusEvent::ModelFileChecked { exists: true });
    assert!(matches!(a.as_slice(), [StatusAction::VerifyModel { index: 2 }]));
    let (s, a) = status_step(&manifest, s, StatusEvent::Verified { ok: false });
    assert!(matches!(a.as_slice(), [StatusAction::ReportVerificationFailed, StatusAction::CheckPartial { index: 2 }]));
    let (s, a) = status_step(&manifest, s, StatusEvent::PartialChecked { size: Some(12) });
    assert!(matches!(a.as_slice(), [StatusAction::ReportPartial { size: 12 }, StatusAction::ResolveRuntime { index: 2 }]));
    let (s, a) = status_step(&manifest, s, StatusEvent::RuntimeResolved { found: false });
    assert!(matches!(s, StatusState::Done));
    assert!(matches!(a.as_slice(), [StatusAction::ReportRuntimeUnavailable]));
}
