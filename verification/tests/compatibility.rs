use ai_pendrive_launcher::catalog::{
    assess_models, eligible_models, find_model, find_model_index, find_safe_model, selected_model, AppConfig, Manifest, Model,
    RuntimeProfile,
};
use ai_pendrive_launcher::compat::{incompatibilities, Incompatibility};
use ai_pendrive_launcher::error::LaunchError;
use ai_pendrive_launcher::machine::{GpuInfo, Machine};

const GIB: u64 = 1 << 30;

fn model(id: &str, profile: RuntimeProfile, enabled: bool) -> Model {
    Model {
        id: id.to_string(),
        name: format!("{id} name"),
        description: "test profile".to_string(),
        filename: format!("{id}.gguf"),
        url: "https://example.invalid/model.gguf".to_string(),
        sha256: "0".repeat(64),
        size_bytes: 2 * GIB,
        min_memory_bytes: 4 * GIB,
        min_free_disk_bytes: 3 * GIB,
        min_vram_bytes: Some(6 * GIB),
        supported_os: vec!["linux".to_string(), "windows".to_string(), "macos".to_string()],
        supported_arch: vec!["x86_64".to_string(), "aarch64".to_string()],
        runtime_profile: profile,
        enabled,
    }
}

fn machine(os: &str, memory: u64, disk: u64, vram: Option<u64>) -> Machine {
    let gpu = match vram {
        Some(bytes) => GpuInfo::reported(Some("Test GPU".to_string()), Some(bytes)),
        None => GpuInfo::unavailable(),
    };
    Machine {
        os: os.to_string(),
        arch: "x86_64".to_string(),
        memory_bytes: memory,
        available_memory_bytes: memory / 2,
        free_disk_bytes: disk,
        gpu,
    }
}

fn catalog() -> Manifest {
    Manifest::checked(
        1,
        vec![
            model("example-light-cpu", RuntimeProfile::Cpu, false),
            model("vendor-cpu", RuntimeProfile::Cpu, true),
            model("vendor-cuda", RuntimeProfile::NvidiaCuda, true),
        ],
    )
    .ok()
    .expect("version 1 is accepted")
}

#[test]
fn unknown_model_fails_without_downloading() {
    let manifest = catalog();
    let host = machine("linux", 16 * GIB, 100 * GIB, None);
    match find_safe_model(&manifest, &host, "does-not-exist", false) {
        Err(LaunchError::UnknownModel { id }) => assert_eq!(id, "does-not-exist"),
        _ => panic!("an unknown id must be rejected"),
    }
}

#[test]
fn disabled_template_cannot_be_downloaded() {
    let manifest = catalog();
    let host = machine("linux", 16 * GIB, 100 * GIB, None);
    match find_safe_model(&manifest, &host, "example-light-cpu", false) {
        Err(LaunchError::NotSafe { name, reasons }) => {
            assert_eq!(name, "example-light-cpu name");
            assert!(matches!(reasons.as_slice(), [Incompatibility::Disabled]));
        }
        _ => panic!("a disabled template must be refused"),
    }
}

#[test]
fn preflight_without_setup_fails_safely() {
    let manifest = catalog();
    assert!(matches!(selected_model(&manifest, None, None), Err(LaunchError::SetupRequired)));
}

#[test]
fn selected_model_prefers_the_request() {
    let manifest = catalog();
    let config = AppConfig::checked(1, "vendor-cpu".to_string()).ok().unwrap();
    assert_eq!(selected_model(&manifest, Some("vendor-cuda"), Some(&config)).ok().unwrap().id, "vendor-cuda");
    assert_eq!(selected_model(&manifest, None, Some(&config)).ok().unwrap().id, "vendor-cpu");
}

#[test]
fn find_model_returns_first_match() {
    let mut manifest = catalog();
    let mut twin = model("vendor-cpu", RuntimeProfile::Vulkan, true);
    twin.name = "second".to_string();
    manifest.models.push(twin);
    let found = find_model(&manifest, "vendor-cpu").ok().unwrap();
    assert_eq!(found.name, "vendor-cpu name");
    assert_eq!(found.runtime_profile, RuntimeProfile::Cpu);
}

#[test]
fn format_versions_other_than_one_are_refused() {
    assert!(matches!(Manifest::checked(2, Vec::new()), Err(LaunchError::UnsupportedManifestVersion { version: 2 })));
    assert!(matches!(
        AppConfig::checked(0, "x".to_string()),
        Err(LaunchError::UnsupportedConfigVersion { version: 0 })
    ));
    let config = AppConfig::selecting(&model("vendor-cpu", RuntimeProfile::Cpu, true));
    assert_eq!(config.version, 1);
    assert_eq!(config.selected_model_id, "vendor-cpu");
}

#[test]
fn reasons_come_in_checking_order() {
    let mut profile = model("vendor-metal", RuntimeProfile::Metal, false);
    profile.supported_os = vec!["macos".to_string()];
    profile.supported_arch = vec!["aarch64".to_string()];
    let host = machine("linux", 2 * GIB, 1 * GIB, None);
    let reasons = incompatibilities(&profile, &host, false);
    assert_eq!(reasons.len(), 6);
    assert!(matches!(reasons[0], Incompatibility::Disabled));
    assert!(matches!(&reasons[1], Incompatibility::UnsupportedOs { os } if os == "linux"));
    assert!(matches!(&reasons[2], Incompatibility::UnsupportedArch { arch } if arch == "x86_64"));
    assert!(matches!(reasons[3], Incompatibility::InsufficientMemory { required_bytes } if required_bytes == 4 * GIB));
    assert!(matches!(reasons[4], Incompatibility::InsufficientDisk { required_bytes } if required_bytes == 3 * GIB));
    assert!(matches!(reasons[5], Incompatibility::MetalRequiresMacos));
}

#[test]
fn memory_threshold_is_inclusive() {
    let profile = model("vendor-cpu", RuntimeProfile::Cpu, true);
    assert!(incompatibilities(&profile, &machine("linux", 4 * GIB, 3 * GIB, None), false).is_empty());
    let short = incompatibilities(&profile, &machine("linux", 4 * GIB - 1, 3 * GIB, None), false);
    assert!(matches!(short.as_slice(), [Incompatibility::InsufficientMemory { .. }]));
}

#[test]
fn unknown_gpu_blocks_cuda_unless_cpu_fallback() {
    let profile = model("vendor-cuda", RuntimeProfile::NvidiaCuda, true);
    let host = machine("linux", 16 * GIB, 100 * GIB, None);
    assert!(matches!(incompatibilities(&profile, &host, false).as_slice(), [Incompatibility::VramUnknown]));
    assert!(incompatibilities(&profile, &host, true).is_empty());
}

#[test]
fn too_little_vram_is_reported_with_both_sizes() {
    let profile = model("vendor-cuda", RuntimeProfile::NvidiaCuda, true);
    let host = machine("windows", 16 * GIB, 100 * GIB, Some(4 * GIB));
    match incompatibilities(&profile, &host, false).as_slice() {
        [Incompatibility::InsufficientVram { required_bytes, detected_bytes }] => {
            assert_eq!(*required_bytes, 6 * GIB);
            assert_eq!(*detected_bytes, 4 * GIB);
        }
        _ => panic!("expected one VRAM reason"),
    }
    assert!(incompatibilities(&profile, &machine("windows", 16 * GIB, 100 * GIB, Some(6 * GIB)), false).is_empty());
}

#[test]
fn vulkan_is_not_offered_on_macos() {
    let profile = model("vendor-vulkan", RuntimeProfile::Vulkan, true);
    let reasons = incompatibilities(&profile, &machine("macos", 16 * GIB, 100 * GIB, None), false);
    assert!(matches!(reasons.as_slice(), [Incompatibility::VulkanUnavailableOnMacos]));
    assert!(incompatibilities(&profile, &machine("linux", 16 * GIB, 100 * GIB, None), false).is_empty());
}

#[test]
fn eligible_models_keep_catalog_order() {
    let manifest = catalog();
    let host = machine("linux", 16 * GIB, 100 * GIB, Some(8 * GIB));
    assert_eq!(eligible_models(&manifest, &host, false), vec![1, 2]);
    let weak = machine("linux", 16 * GIB, 100 * GIB, None);
    assert_eq!(eligible_models(&manifest, &weak, false), vec![1]);
    let assessed = assess_models(&manifest, &weak, false);
    assert_eq!(assessed.len(), 3);
    assert!(assessed[1].is_empty());
    assert_eq!(assessed[2].len(), 1);
}

#[test]
fn safe_profile_stays_safe_on_a_bigger_machine() {
    let profile = model("vendor-cuda", RuntimeProfile::NvidiaCuda, true);
    let small = machine("linux", 4 * GIB, 3 * GIB, Some(6 * GIB));
    let big = machine("linux", 64 * GIB, 300 * GIB, Some(24 * GIB));
    assert!(incompatibilities(&profile, &small, false).is_empty());
    assert!(incompatibilities(&profile, &big, false).is_empty());
}

#[test]
fn runtime_labels() {
    assert_eq!(RuntimeProfile::Cpu.as_str(), "cpu");
    assert_eq!(RuntimeProfile::NvidiaCuda.as_str(), "nvidia_cuda");
    assert_eq!(RuntimeProfile::Metal.as_str(), "metal");
    assert_eq!(RuntimeProfile::Vulkan.as_str(), "vulkan");
}

#[test]
fn saved_choice_is_found_again() {
    let manifest = catalog();
    for (i, m) in manifest.models.iter().enumerate() {
        assert_eq!(find_model_index(&manifest, &m.id), Some(i));
        let saved = AppConfig::selecting(m);
        assert_eq!(saved.version, 1);
        let again = selected_model(&manifest, None, Some(&saved)).ok().unwrap();
        assert_eq!(again.id, m.id);
        assert_eq!(again.name, m.name);
    }
    assert_eq!(find_model_index(&manifest, "missing"), None);
}
