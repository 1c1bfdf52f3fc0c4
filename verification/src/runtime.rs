//! Finding the inference runtime for a profile: an explicit override, the
//! `AI_PENDRIVE_RUNTIME` environment variable, or a bundled binary under
//! `runtimes/`.

use vstd::prelude::*;
use crate::catalog::RuntimeProfile;
use crate::error::LaunchError;
use crate::layout::{joined2, owned, runtimes_dir_name, two_parts, PortablePath};
use crate::text::push_str;

verus! {

/// The bundled runtime names tried for a profile, in order.
pub open spec fn runtime_names(profile: RuntimeProfile) -> Seq<Seq<char>> {
    match profile {
        RuntimeProfile::Cpu => seq!["llama-server-cpu"@, "llama-server"@, "llamafile"@],
        RuntimeProfile::NvidiaCuda => seq!["llama-server-cuda"@, "llama-server"@],
        RuntimeProfile::Metal => seq!["llama-server-metal"@, "llama-server"@],
        RuntimeProfile::Vulkan => seq!["llama-server-vulkan"@, "llama-server"@],
    }
}

/// A runtime's file name: `.exe` is added on Windows.
pub open spec fn executable_name(name: Seq<char>, windows: bool) -> Seq<char> {
    if windows {
        name + ".exe"@
    } else {
        name
    }
}

fn push_candidate(out: &mut Vec<PortablePath>, base: &str, name: &str, windows: bool)
    ensures
        final(out)@.len() == old(out)@.len() + 1,
        forall|i: int| 0 <= i < old(out)@.len() ==> final(out)@[i] == old(out)@[i],
        final(out)@.last()@ == joined2(base@, runtimes_dir_name(), executable_name(name@, windows)),
{
    let mut file = owned(name);
    if windows {
        push_str(&mut file, ".exe");
    }
    out.push(two_parts(base, "runtimes", file.as_str()));
}

/// The bundled runtime binaries that may serve a profile, in the order they
/// are tried: `<base>/runtimes/<name>[.exe]`.
pub fn runtime_candidates(profile: &RuntimeProfile, base: &str, windows: bool) -> (r: Vec<PortablePath>)
    ensures
        r.len() == runtime_names(*profile).len(),
        forall|i: int|
            0 <= i < r.len() ==> (#[trigger] r@[i])@ == joined2(
                base@,
                runtimes_dir_name(),
                executable_name(runtime_names(*profile)[i], windows),
            ),
{
    let mut out: Vec<PortablePath> = Vec::new();
    match profile {
        RuntimeProfile::Cpu => {
            push_candidate(&mut out, base, "llama-server-cpu", windows);
            push_candidate(&mut out, base, "llama-server", windows);
            push_candidate(&mut out, base, "llamafile", windows);
        },
        RuntimeProfile::NvidiaCuda => {
            push_candidate(&mut out, base, "llama-server-cuda", windows);
            push_candidate(&mut out, base, "llama-server", windows);
        },
        RuntimeProfile::Metal => {
            push_candidate(&mut out, base, "llama-server-metal", windows);
            push_candidate(&mut out, base, "llama-server", windows);
        },
        RuntimeProfile::Vulkan => {
            push_candidate(&mut out, base, "llama-server-vulkan", windows);
            push_candidate(&mut out, base, "llama-server", windows);
        },
    }
    out
}

/// Where the runtime to start comes from.
#[derive(Clone, Copy, Debug, PartialEq, Eq, Structural)]
pub enum RuntimeSource {
    /// The runtime given on the command line.
    Override,
    /// The runtime named by `AI_PENDRIVE_RUNTIME`.
    Environment,
    /// The bundled candidate at this position.
    Bundled(usize),
}

/// Picks the runtime: the override when given, else the environment
/// variable when set, else the first bundled candidate that is a file.
pub fn resolve_runtime(profile: RuntimeProfile, has_override: bool, has_environment: bool, candidate_is_file: &Vec<bool>) -> (r: Result<RuntimeSource, LaunchError>)
    ensures
        has_override ==> r == Ok::<RuntimeSource, LaunchError>(RuntimeSource::Override),
        !has_override && has_environment ==> r == Ok::<RuntimeSource, LaunchError>(
            RuntimeSource::Environment,
        ),
        !has_override && !has_environment ==> match r {
            Ok(RuntimeSource::Bundled(i)) => i < candidate_is_file.len() && candidate_is_file@[i as int]
                && forall|j: int| 0 <= j < i ==> !candidate_is_file@[j],
            Ok(_) => false,
            Err(e) => e == (LaunchError::NoRuntime { profile }) && forall|j: int|
                0 <= j < candidate_is_file.len() ==> !candidate_is_file@[j],
        },
{
    if has_override {
        return Ok(RuntimeSource::Override);
    }
    if has_environment {
        return Ok(RuntimeSource::Environment);
    }
    let mut i: usize = 0;
    while i < candidate_is_file.len()
        invariant
            !has_override && !has_environment,
            i <= candidate_is_file.len(),
            forall|j: int| 0 <= j < i ==> !candidate_is_file@[j],
        decreases candidate_is_file.len() - i,
    {
        if candidate_is_file[i] {
            return Ok(RuntimeSource::Bundled(i));
        }
        i = i + 1;
    }
    Err(LaunchError::NoRuntime { profile })
}

/// The tag of a profile's own runtime binary: the profile's label, with
/// CUDA named by its short form.
pub open spec fn binary_tag(profile: RuntimeProfile) -> Seq<char> {
    match profile {
        RuntimeProfile::Cpu => "cpu"@,
        RuntimeProfile::NvidiaCuda => "cuda"@,
        RuntimeProfile::Metal => "metal"@,
        RuntimeProfile::Vulkan => "vulkan"@,
    }
}

/// Every profile tries its own runtime binary first, `llama-server-<tag>`,
/// and then the generic `llama-server`; the CPU profile tries `llamafile`
/// last. No other binary is tried.
pub proof fn generic_runtime_always_tried(profile: RuntimeProfile)
    ensures
        runtime_names(profile).len() == (if profile == RuntimeProfile::Cpu {
            3int
        } else {
            2int
        }),
        runtime_names(profile)[0] == "llama-server-"@ + binary_tag(profile),
        runtime_names(profile)[1] == "llama-server"@,
        profile == RuntimeProfile::Cpu ==> runtime_names(profile)[2] == "llamafile"@,
{
    reveal_strlit("llama-server-");
    reveal_strlit("llama-server-cpu");
    reveal_strlit("llama-server-cuda");
    reveal_strlit("llama-server-metal");
    reveal_strlit("llama-server-vulkan");
    reveal_strlit("cpu");
    reveal_strlit("cuda");
    reveal_strlit("metal");
    reveal_strlit("vulkan");
    assert(runtime_names(profile)[0] =~= "llama-server-"@ + binary_tag(profile));
}

} // verus!
