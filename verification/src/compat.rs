//! Why a model profile cannot run on a machine.

use vstd::prelude::*;
use crate::catalog::{Model, RuntimeProfile};
use crate::machine::Machine;
use crate::text::{push_str, str_eq};

verus! {

/// One reason a model profile is unavailable on a machine. Sizes are in
/// bytes.
pub enum Incompatibility {
    /// The catalog marks the profile as disabled.
    Disabled,
    /// The machine's operating system is not listed.
    UnsupportedOs { os: String },
    /// The machine's architecture is not listed.
    UnsupportedArch { arch: String },
    /// The machine has less memory than the profile needs.
    InsufficientMemory { required_bytes: u64 },
    /// The machine has less free disk than the profile needs.
    InsufficientDisk { required_bytes: u64 },
    /// The detected NVIDIA memory is below the profile's minimum.
    InsufficientVram { required_bytes: u64, detected_bytes: u64 },
    /// The profile needs NVIDIA memory and none could be detected.
    VramUnknown,
    /// Metal profiles run only on macOS.
    MetalRequiresMacos,
    /// Vulkan profiles are not offered on macOS.
    VulkanUnavailableOnMacos,
}

/// `value` is one of `listed`.
pub open spec fn listed(listed: Seq<String>, value: Seq<char>) -> bool {
    exists|i: int| 0 <= i < listed.len() && listed[i]@ == value
}

fn is_listed(values: &Vec<String>, value: &String) -> (r: bool)
    ensures
        r == listed(values@, value@),
{
    let mut i: usize = 0;
    while i < values.len()
        invariant
            i <= values.len(),
            forall|j: int| 0 <= j < i ==> values@[j]@ != value@,
        decreases values.len() - i,
    {
        if values[i] == *value {
            return true;
        }
        i = i + 1;
    }
    false
}

/// The machine runs macOS.
pub open spec fn is_macos(machine: &Machine) -> bool {
    machine.os@ == "macos"@
}

/// The NVIDIA memory check: only for CUDA profiles, and skipped when the
/// CPU fallback is allowed.
pub open spec fn vram_reasons(model: &Model, machine: &Machine, allow_cpu_fallback: bool) -> Seq<
    Incompatibility,
> {
    if model.runtime_profile == RuntimeProfile::NvidiaCuda && !allow_cpu_fallback {
        match machine.gpu.vram_bytes {
            Some(vram) => match model.min_vram_bytes {
                Some(minimum) => if vram >= minimum {
                    Seq::empty()
                } else {
                    seq![Incompatibility::InsufficientVram { required_bytes: minimum, detected_bytes: vram }]
                },
                None => Seq::empty(),
            },
            None => seq![Incompatibility::VramUnknown],
        }
    } else {
        Seq::empty()
    }
}

/// A disabled catalog entry is never offered.
pub open spec fn enabled_reasons(model: &Model) -> Seq<Incompatibility> {
    if !model.enabled {
        seq![Incompatibility::Disabled]
    } else {
        Seq::empty()
    }
}

/// The machine's operating system must be listed for the model.
pub open spec fn os_reasons(model: &Model, machine: &Machine) -> Seq<Incompatibility> {
    if !listed(model.supported_os@, machine.os@) {
        seq![Incompatibility::UnsupportedOs { os: machine.os }]
    } else {
        Seq::empty()
    }
}

/// The machine's architecture must be listed for the model.
pub open spec fn arch_reasons(model: &Model, machine: &Machine) -> Seq<Incompatibility> {
    if !listed(model.supported_arch@, machine.arch@) {
        seq![Incompatibility::UnsupportedArch { arch: machine.arch }]
    } else {
        Seq::empty()
    }
}

/// The machine needs at least the model's minimum memory.
pub open spec fn memory_reasons(model: &Model, machine: &Machine) -> Seq<Incompatibility> {
    if machine.memory_bytes < model.min_memory_bytes {
        seq![Incompatibility::InsufficientMemory { required_bytes: model.min_memory_bytes }]
    } else {
        Seq::empty()
    }
}

/// The disk needs at least the model's minimum free space.
pub open spec fn disk_reasons(model: &Model, machine: &Machine) -> Seq<Incompatibility> {
    if machine.free_disk_bytes < model.min_free_disk_bytes {
        seq![Incompatibility::InsufficientDisk { required_bytes: model.min_free_disk_bytes }]
    } else {
        Seq::empty()
    }
}

/// Metal needs macOS; Vulkan is not offered on macOS.
pub open spec fn platform_reasons(model: &Model, machine: &Machine) -> Seq<Incompatibility> {
    (if model.runtime_profile == RuntimeProfile::Metal && !is_macos(machine) {
        seq![Incompatibility::MetalRequiresMacos]
    } else {
        Seq::empty()
    }) + (if model.runtime_profile == RuntimeProfile::Vulkan && is_macos(machine) {
        seq![Incompatibility::VulkanUnavailableOnMacos]
    } else {
        Seq::empty()
    })
}

/// Every reason `model` is unavailable on `machine`, in the order they are
/// checked: enabled, operating system, architecture, memory, disk, NVIDIA
/// memory, Metal, Vulkan.
pub open spec fn spec_incompatibilities(model: &Model, machine: &Machine, allow_cpu_fallback: bool) -> Seq<
    Incompatibility,
> {
    enabled_reasons(model) + os_reasons(model, machine) + arch_reasons(model, machine) + memory_reasons(
        model,
        machine,
    ) + disk_reasons(model, machine) + vram_reasons(model, machine, allow_cpu_fallback)
        + platform_reasons(model, machine)
}

fn copy_string(s: &String) -> (r: String)
    ensures
        r == *s,
{
    s.clone()
}

fn add_listing_reasons(reasons: &mut Vec<Incompatibility>, model: &Model, machine: &Machine)
    ensures
        final(reasons)@ == old(reasons)@ + os_reasons(model, machine) + arch_reasons(model, machine),
{
    let ghost start = reasons@;
    if !is_listed(&model.supported_os, &machine.os) {
        reasons.push(Incompatibility::UnsupportedOs { os: copy_string(&machine.os) });
    }
    assert(reasons@ =~= start + os_reasons(model, machine));
    let ghost mid = reasons@;
    if !is_listed(&model.supported_arch, &machine.arch) {
        reasons.push(Incompatibility::UnsupportedArch { arch: copy_string(&machine.arch) });
    }
    assert(reasons@ =~= mid + arch_reasons(model, machine));
}

fn add_size_reasons(reasons: &mut Vec<Incompatibility>, model: &Model, machine: &Machine)
    ensures
        final(reasons)@ == old(reasons)@ + memory_reasons(model, machine) + disk_reasons(model, machine),
{
    let ghost start = reasons@;
    if machine.memory_bytes < model.min_memory_bytes {
        reasons.push(Incompatibility::InsufficientMemory { required_bytes: model.min_memory_bytes });
    }
    assert(reasons@ =~= start + memory_reasons(model, machine));
    let ghost mid = reasons@;
    if machine.free_disk_bytes < model.min_free_disk_bytes {
        reasons.push(Incompatibility::InsufficientDisk { required_bytes: model.min_free_disk_bytes });
    }
    assert(reasons@ =~= mid + disk_reasons(model, machine));
}

fn add_vram_reasons(reasons: &mut Vec<Incompatibility>, model: &Model, machine: &Machine, allow_cpu_fallback: bool)
    ensures
        final(reasons)@ == old(reasons)@ + vram_reasons(model, machine, allow_cpu_fallback),
{
    let ghost start = reasons@;
    let cuda = match model.runtime_profile {
        RuntimeProfile::NvidiaCuda => true,
        _ => false,
    };
    if cuda && !allow_cpu_fallback {
        match machine.gpu.vram_bytes {
            Some(vram) => match model.min_vram_bytes {
                Some(minimum) => {
                    if vram < minimum {
                        reasons.push(
                            Incompatibility::InsufficientVram {
                                required_bytes: minimum,
                                detected_bytes: vram,
                            },
                        );
                    }
                },
                None => {},
            },
            None => reasons.push(Incompatibility::VramUnknown),
        }
    }
    assert(reasons@ =~= start + vram_reasons(model, machine, allow_cpu_fallback));
}

fn add_platform_reasons(reasons: &mut Vec<Incompatibility>, model: &Model, machine: &Machine)
    ensures
        final(reasons)@ == old(reasons)@ + platform_reasons(model, machine),
{
    let ghost start = reasons@;
    let macos = str_eq(machine.os.as_str(), "macos");
    let metal = match model.runtime_profile {
        RuntimeProfile::Metal => true,
        _ => false,
    };
    let vulkan = match model.runtime_profile {
        RuntimeProfile::Vulkan => true,
        _ => false,
    };
    if metal && !macos {
        reasons.push(Incompatibility::MetalRequiresMacos);
    }
    if vulkan && macos {
        reasons.push(Incompatibility::VulkanUnavailableOnMacos);
    }
    assert(reasons@ =~= start + platform_reasons(model, machine));
}

/// Every reason `model` is unavailable on `machine`; empty when it is safe.
pub fn incompatibilities(model: &Model, machine: &Machine, allow_cpu_fallback: bool) -> (r: Vec<
    Incompatibility,
>)
    ensures
        r@ == spec_incompatibilities(model, machine, allow_cpu_fallback),
{
    let mut reasons: Vec<Incompatibility> = Vec::new();
    if !model.enabled {
        reasons.push(Incompatibility::Disabled);
    }
    assert(reasons@ =~= enabled_reasons(model));
    add_listing_reasons(&mut reasons, model, machine);
    add_size_reasons(&mut reasons, model, machine);
    add_vram_reasons(&mut reasons, model, machine, allow_cpu_fallback);
    add_platform_reasons(&mut reasons, model, machine);
    reasons
}

// The laws below are stated over `spec_incompatibilities`, which
// `incompatibilities`, `find_safe_model` and `eligible_models` follow
// exactly.

/// A profile that the catalog disables is never safe, whatever the machine.
pub proof fn disabled_profile_is_never_safe(model: &Model, machine: &Machine, allow_cpu_fallback: bool)
    requires
        !model.enabled,
    ensures
        spec_incompatibilities(model, machine, allow_cpu_fallback).len() > 0,
        spec_incompatibilities(model, machine, allow_cpu_fallback)[0] == Incompatibility::Disabled,
{
}

/// GPU capability that could not be probed is treated as unknown, not
/// guessed: a CUDA profile is then unavailable unless the CPU fallback is
/// allowed.
pub proof fn unknown_vram_blocks_cuda(model: &Model, machine: &Machine)
    requires
        model.runtime_profile == RuntimeProfile::NvidiaCuda,
        machine.gpu.vram_bytes is None,
    ensures
        spec_incompatibilities(model, machine, false).contains(Incompatibility::VramUnknown),
{
    let s = spec_incompatibilities(model, machine, false);
    let k = s.len() - 1 - platform_reasons(model, machine).len();
    assert(s[k] == Incompatibility::VramUnknown);
}

/// Allowing the CPU fallback only drops the NVIDIA memory check: the
/// reasons with the fallback are those without it, less the NVIDIA memory
/// reasons.
pub proof fn cpu_fallback_only_drops_vram_check(model: &Model, machine: &Machine)
    ensures
        spec_incompatibilities(model, machine, true).len() + vram_reasons(model, machine, false).len()
            == spec_incompatibilities(model, machine, false).len(),
        forall|r: Incompatibility|
            spec_incompatibilities(model, machine, true).contains(r) ==> spec_incompatibilities(
                model,
                machine,
                false,
            ).contains(r),
        spec_incompatibilities(model, machine, false).len() == 0 ==> spec_incompatibilities(
            model,
            machine,
            true,
        ).len() == 0,
{
    let a = spec_incompatibilities(model, machine, true);
    let b = spec_incompatibilities(model, machine, false);
    assert(vram_reasons(model, machine, true) == Seq::<Incompatibility>::empty());
    assert forall|r: Incompatibility| a.contains(r) implies b.contains(r) by {
        let i = choose|i: int| 0 <= i < a.len() && a[i] == r;
        let v = vram_reasons(model, machine, false).len();
        let tail = a.len() - platform_reasons(model, machine).len();
        if i < tail {
            assert(b[i] == r);
        } else {
            assert(b[i + v] == r);
        }
    }
}

/// A profile other than CUDA is judged the same with or without the CPU
/// fallback.
pub proof fn cpu_fallback_irrelevant_without_cuda(model: &Model, machine: &Machine)
    requires
        model.runtime_profile != RuntimeProfile::NvidiaCuda,
    ensures
        spec_incompatibilities(model, machine, true) == spec_incompatibilities(model, machine, false),
{
}

/// `bigger` offers at least what `smaller` offers: the same operating system
/// and architecture, at least as much memory and free disk, and NVIDIA
/// memory known whenever it is known on `smaller`, and at least as large.
pub open spec fn offers_at_least(bigger: &Machine, smaller: &Machine) -> bool {
    &&& bigger.os@ == smaller.os@
    &&& bigger.arch@ == smaller.arch@
    &&& bigger.memory_bytes >= smaller.memory_bytes
    &&& bigger.free_disk_bytes >= smaller.free_disk_bytes
    &&& (smaller.gpu.vram_bytes matches Some(v) ==> (bigger.gpu.vram_bytes matches Some(w) && w >= v))
}

/// A profile that is safe on a machine stays safe on any machine that
/// offers at least as much.
pub proof fn safe_on_larger_machine(model: &Model, smaller: &Machine, bigger: &Machine, allow_cpu_fallback: bool)
    requires
        offers_at_least(bigger, smaller),
        spec_incompatibilities(model, smaller, allow_cpu_fallback).len() == 0,
    ensures
        spec_incompatibilities(model, bigger, allow_cpu_fallback).len() == 0,
{
    assert(vram_reasons(model, smaller, allow_cpu_fallback).len() == 0);
}

/// A Metal profile is refused for its platform exactly when the machine
/// does not run macOS: no other profile, and no Metal profile on macOS, is
/// ever given that reason.
pub proof fn metal_refused_exactly_off_macos(model: &Model, machine: &Machine, allow_cpu_fallback: bool)
    ensures
        spec_incompatibilities(model, machine, allow_cpu_fallback).contains(Incompatibility::MetalRequiresMacos)
            <==> (model.runtime_profile == RuntimeProfile::Metal && machine.os@ != "macos"@),
{
    let s = spec_incompatibilities(model, machine, allow_cpu_fallback);
    let front = enabled_reasons(model) + os_reasons(model, machine) + arch_reasons(model, machine)
        + memory_reasons(model, machine) + disk_reasons(model, machine) + vram_reasons(
        model,
        machine,
        allow_cpu_fallback,
    );
    let p = platform_reasons(model, machine);
    assert(s == front + p);
    assert(!front.contains(Incompatibility::MetalRequiresMacos)) by {
        if front.contains(Incompatibility::MetalRequiresMacos) {
            let i = choose|i: int| 0 <= i < front.len() && front[i] == Incompatibility::MetalRequiresMacos;
            assert(front[i] == Incompatibility::MetalRequiresMacos);
        }
    }
    if model.runtime_profile == RuntimeProfile::Metal && machine.os@ != "macos"@ {
        assert(p[0] == Incompatibility::MetalRequiresMacos);
        assert(s[front.len() as int] == Incompatibility::MetalRequiresMacos);
    } else {
        assert(!p.contains(Incompatibility::MetalRequiresMacos)) by {
            if p.contains(Incompatibility::MetalRequiresMacos) {
                let i = choose|i: int| 0 <= i < p.len() && p[i] == Incompatibility::MetalRequiresMacos;
                assert(p[i] == Incompatibility::MetalRequiresMacos);
            }
        }
        if s.contains(Incompatibility::MetalRequiresMacos) {
            let i = choose|i: int| 0 <= i < s.len() && s[i] == Incompatibility::MetalRequiresMacos;
            if i < front.len() {
                assert(front[i] == s[i]);
            } else {
                assert(p[i - front.len()] == s[i]);
            }
        }
    }
}

/// A Metal profile that meets every other requirement runs on macOS: it
/// has no reason at all to be unavailable there.
pub proof fn metal_profile_runs_on_macos(model: &Model, machine: &Machine, allow_cpu_fallback: bool)
    requires
        model.runtime_profile == RuntimeProfile::Metal,
        machine.os@ == "macos"@,
        model.enabled,
        listed(model.supported_os@, machine.os@),
        listed(model.supported_arch@, machine.arch@),
        machine.memory_bytes >= model.min_memory_bytes,
        machine.free_disk_bytes >= model.min_free_disk_bytes,
    ensures
        spec_incompatibilities(model, machine, allow_cpu_fallback).len() == 0,
{
}

} // verus!
