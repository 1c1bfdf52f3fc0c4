use ai_pendrive_launcher::digest::{digest_hex, digest_hex_of, digest_matches, is_placeholder_digest, Sha256State};
use ai_pendrive_launcher::error::LaunchError;
use ai_pendrive_launcher::layout::{
    companion_name_with, config_path, lock_path, log_path, model_path, partial_path, resolve_manifest, resolve_manifest_with,
    Companion,
};
use ai_pendrive_launcher::logging::{log_line, timestamp_from, unix_timestamp};
use ai_pendrive_launcher::machine::{split_gpu_record, GpuInfo, GpuProbe, Machine};
use ai_pendrive_launcher::runtime::{resolve_runtime, runtime_candidates, RuntimeSource};
use ai_pendrive_launcher::catalog::{Manifest, RuntimeProfile};
use ai_pendrive_launcher::commands::{
    setup_step, status_step, SetupEvent, SetupFailure, SetupRequest, SetupState, StatusAction, StatusEvent, StatusState,
};
use ai_pendrive_launcher::setup::{check_setup_flags, download_decision, is_affirmative, parse_selection, DownloadDecision};
use ai_pendrive_launcher::text::{decimal_string, eq_ignore_ascii_case, parse_u64, str_eq};

fn parts(path: &ai_pendrive_launcher::layout::PortablePath) -> Vec<String> {
    let mut all = vec![path.root.clone()];
    all.extend(path.parts.iter().cloned());
    all
}

#[test]
fn setup_requires_explicit_noninteractive_download_acceptance() {
    assert_eq!(download_decision(true, false, false), DownloadDecision::Decline);
    assert_eq!(download_decision(true, true, false), DownloadDecision::Start);
    assert_eq!(download_decision(false, false, false), DownloadDecision::Confirm);
    assert_eq!(download_decision(true, true, true), DownloadDecision::Skip);
    assert!(matches!(check_setup_flags(false, true, false), Err(LaunchError::AcceptWithoutModel)));
    assert!(matches!(check_setup_flags(true, true, true), Err(LaunchError::AcceptAndSkip)));
    assert!(check_setup_flags(true, true, false).is_ok());
    assert!(check_setup_flags(false, false, true).is_ok());

    let manifest = Manifest::checked(1, Vec::new()).ok().unwrap();
    let machine = Machine {
        os: "linux".to_string(),
        arch: "x86_64".to_string(),
        memory_bytes: 1 << 34,
        available_memory_bytes: 1 << 33,
        free_disk_bytes: 1 << 36,
        gpu: GpuInfo::unavailable(),
    };
    let accept_only = SetupRequest { requested: None, accept_download: true, skip_download: false, allow_cpu_fallback: false };
    let (s, a) = setup_step(&manifest, &machine, &accept_only, SetupState::Start, SetupEvent::Begin);
    assert!(matches!(s, SetupState::Failed(SetupFailure::AcceptWithoutModel)));
    assert!(a.is_empty());
}

#[test]
fn status_succeeds_when_setup_has_not_run() {
    assert_eq!(parts(&config_path("/portable")), vec!["/portable", "config.json"]);
    let manifest = Manifest::checked(1, Vec::new()).ok().unwrap();
    let (s, a) = status_step(&manifest, StatusState::Start, StatusEvent::Begin);
    assert!(matches!(a.as_slice(), [StatusAction::ReportOverview, StatusAction::LoadConfig]));
    let (s, a) = status_step(&manifest, s, StatusEvent::ConfigLoaded { selected_model_id: None });
    assert!(matches!(s, StatusState::Done));
    assert!(matches!(a.as_slice(), [StatusAction::ReportNotConfigured]));
}

#[test]
fn portable_layout() {
    assert_eq!(parts(&log_path("D:\\AI")), vec!["D:\\AI", "logs/launcher.log"]);
    assert_eq!(parts(&model_path("example-light.gguf", "/p")), vec!["/p", "models", "example-light.gguf"]);
    assert_eq!(parts(&partial_path("example-light.gguf", "/p")), vec!["/p", "models", "example-light.gguf.partial"]);
    assert_eq!(parts(&lock_path("example-light.gguf", "/p")), vec!["/p", "models", "example-light.gguf.lock"]);
    assert_eq!(parts(&partial_path("model", "/p")), vec!["/p", "models", "model.download.partial"]);
    assert_eq!(parts(&lock_path(".hidden", "/p")), vec!["/p", "models", ".hidden.download.lock"]);
    assert_eq!(parts(&resolve_manifest("/p", "models.json")), vec!["/p", "models.json"]);
    assert_eq!(parts(&resolve_manifest_with("/p", "/etc/models.json", true)), vec!["/etc/models.json"]);
}

#[test]
fn runtime_search_order() {
    let unix = runtime_candidates(&RuntimeProfile::Cpu, "/p", false);
    let names: Vec<String> = unix.iter().map(|c| c.parts[1].clone()).collect();
    assert_eq!(names, vec!["llama-server-cpu", "llama-server", "llamafile"]);
    assert_eq!(unix[0].parts[0], "runtimes");
    let windows = runtime_candidates(&RuntimeProfile::NvidiaCuda, "C:\\p", true);
    let names: Vec<String> = windows.iter().map(|c| c.parts[1].clone()).collect();
    assert_eq!(names, vec!["llama-server-cuda.exe", "llama-server.exe"]);
    assert_eq!(resolve_runtime(RuntimeProfile::Cpu, true, true, &vec![true]).ok(), Some(RuntimeSource::Override));
    assert_eq!(resolve_runtime(RuntimeProfile::Cpu, false, true, &vec![true]).ok(), Some(RuntimeSource::Environment));
    assert_eq!(resolve_runtime(RuntimeProfile::Cpu, false, false, &vec![false, true, true]).ok(), Some(RuntimeSource::Bundled(1)));
    assert!(matches!(
        resolve_runtime(RuntimeProfile::Metal, false, false, &vec![false, false]),
        Err(LaunchError::NoRuntime { profile: RuntimeProfile::Metal })
    ));
}

#[test]
fn confirmation_answers() {
    assert!(is_affirmative("y\n"));
    assert!(is_affirmative("  YES \r\n"));
    assert!(is_affirmative("Yes"));
    assert!(!is_affirmative("yeah"));
    assert!(!is_affirmative(""));
    assert!(!is_affirmative("n"));
    assert!(!is_affirmative("y e s"));
}

#[test]
fn profile_number_answers() {
    assert_eq!(parse_selection("2\n", 3).ok(), Some(1));
    assert_eq!(parse_selection(" +1 ", 3).ok(), Some(0));
    assert_eq!(parse_selection("0", 3).ok(), Some(0));
    assert!(matches!(parse_selection("4", 3), Err(LaunchError::SelectionOutOfRange)));
    assert!(matches!(parse_selection("two", 3), Err(LaunchError::NotANumber)));
    assert!(matches!(parse_selection("-1", 3), Err(LaunchError::NotANumber)));
    assert!(matches!(parse_selection("", 3), Err(LaunchError::NotANumber)));
}

#[test]
fn gpu_record_splitting() {
    let (name, memory) = split_gpu_record("NVIDIA GeForce RTX 3060, 12288\nsecond, 1\n");
    assert_eq!(name.as_deref(), Some("NVIDIA GeForce RTX 3060"));
    assert_eq!(memory.as_deref(), Some("12288"));
    let (name, memory) = split_gpu_record("  , 8\r\n");
    assert_eq!(name, None);
    assert_eq!(memory.as_deref(), Some("8"));
    let (name, memory) = split_gpu_record("");
    assert_eq!(name, None);
    assert_eq!(memory, None);
    let (name, memory) = split_gpu_record("Only name");
    assert_eq!(name.as_deref(), Some("Only name"));
    assert_eq!(memory, None);
    let gpu = GpuInfo::reported(Some("x".to_string()), None);
    assert!(!gpu.available);
    assert_eq!(GpuInfo::unavailable().probe, GpuProbe::Unavailable);
    assert_eq!(GpuProbe::Unavailable.probe_name(), "none");
    assert_eq!(GpuProbe::Unusable.probe_name(), "nvidia-smi");
}

#[test]
fn log_lines_stay_on_one_line() {
    assert_eq!(log_line(1725029869, "INFO", "launcher started"), "1725029869 [INFO] launcher started");
    assert_eq!(log_line(0, "ERROR", "a\nb\r\nc"), "0 [ERROR] a b  c");
    assert!(unix_timestamp() > 1_600_000_000);
}

#[test]
fn digests() {
    assert_eq!(digest_hex(&[0x00, 0x0f, 0xa5, 0xff]), "000fa5ff");
    assert_eq!(digest_hex(&[]), "");
    assert!(digest_matches("ABCDEF", "abcdef"));
    assert!(!digest_matches("abcdef", "abcde0"));
    assert!(is_placeholder_digest(&"0".repeat(64)));
    assert!(is_placeholder_digest(""));
    assert!(!is_placeholder_digest(&format!("{}1", "0".repeat(63))));
}

#[test]
fn text_helpers() {
    assert_eq!(decimal_string(0), "0");
    assert_eq!(decimal_string(1234567890), "1234567890");
    assert_eq!(parse_u64("18446744073709551615"), Some(u64::MAX));
    assert_eq!(parse_u64("18446744073709551616"), None);
    assert_eq!(parse_u64("+7"), Some(7));
    assert_eq!(parse_u64("+"), None);
    assert_eq!(parse_u64("1 "), None);
    assert!(str_eq("abc", "abc"));
    assert!(!str_eq("abc", "abd"));
    assert!(eq_ignore_ascii_case("Ä-x", "Ä-X"));
}

#[test]
fn decimal_text_reads_back() {
    for n in [0u64, 7, 10, 99, 1_000_000, 1725029869, u64::MAX - 1, u64::MAX] {
        assert_eq!(parse_u64(&decimal_string(n)), Some(n));
    }
}

#[test]
fn companion_files_never_clash_with_the_model() {
    for name in ["model.gguf", "model", ".hidden", "a.b.c", ""] {
        for has_ext in [true, false] {
            let partial = companion_name_with(name, has_ext, Companion::Partial);
            let lock = companion_name_with(name, has_ext, Companion::Lock);
            assert_ne!(partial, name);
            assert_ne!(lock, name);
            assert_ne!(partial, lock);
        }
    }
    assert_eq!(companion_name_with("model.gguf", true, Companion::Partial), "model.gguf.partial");
    assert_eq!(companion_name_with("model", false, Companion::Lock), "model.download.lock");
}

#[test]
fn clock_before_the_epoch_gives_zero() {
    assert_eq!(timestamp_from(Some(1725029869)), 1725029869);
    assert_eq!(timestamp_from(None), 0);
}

#[test]
fn file_digest_is_fed_in_pieces() {
    let mut whole = Sha256State::new();
    whole.feed(b"abc");
    assert_eq!(digest_hex_of(whole), "ba7816bf8f01cfea414140de5dae2223b00361a396177a9cb410ff61f20015ad");
    let mut pieces = Sha256State::new();
    pieces.feed(b"a");
    pieces.feed(b"");
    pieces.feed(b"bc");
    assert_eq!(digest_hex_of(pieces), "ba7816bf8f01cfea414140de5dae2223b00361a396177a9cb410ff61f20015ad");
    assert_eq!(digest_hex_of(Sha256State::new()), "e3b0c44298fc1c149afbf4c8996fb92427ae41e4649b934ca495991b7852b855");
}
