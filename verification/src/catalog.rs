//! The model catalog (`models.json`) and the saved setup choice
//! (`config.json`), and looking models up in the catalog.

use vstd::prelude::*;
use crate::compat::{incompatibilities, Incompatibility, spec_incompatibilities};
use crate::error::LaunchError;
use crate::machine::Machine;
use crate::text::{push_str, str_eq};

verus! {

/// The runtime family a model profile is built for.
#[derive(Clone, Copy, Debug, PartialEq, Eq, Structural)]
pub enum RuntimeProfile {
    Cpu,
    NvidiaCuda,
    Metal,
    Vulkan,
}

impl RuntimeProfile {
    /// The label used in the catalog and in messages.
    pub open spec fn label(self) -> Seq<char> {
        match self {
            RuntimeProfile::Cpu => "cpu"@,
            RuntimeProfile::NvidiaCuda => "nvidia_cuda"@,
            RuntimeProfile::Metal => "metal"@,
            RuntimeProfile::Vulkan => "vulkan"@,
        }
    }

    /// The label used in the catalog and in messages.
    pub fn as_str(&self) -> (s: &'static str)
        ensures
            s@ == self.label(),
    {
        match self {
            RuntimeProfile::Cpu => "cpu",
            RuntimeProfile::NvidiaCuda => "nvidia_cuda",
            RuntimeProfile::Metal => "metal",
            RuntimeProfile::Vulkan => "vulkan",
        }
    }
}

/// One model profile of the catalog. Sizes are in bytes.
pub struct Model {
    pub id: String,
    pub name: String,
    pub description: String,
    pub filename: String,
    pub url: String,
    pub sha256: String,
    pub size_bytes: u64,
    pub min_memory_bytes: u64,
    pub min_free_disk_bytes: u64,
    pub min_vram_bytes: Option<u64>,
    pub supported_os: Vec<String>,
    pub supported_arch: Vec<String>,
    pub runtime_profile: RuntimeProfile,
    pub enabled: bool,
}

/// The model catalog.
pub struct Manifest {
    pub version: u32,
    pub models: Vec<Model>,
}

/// The saved setup choice.
pub struct AppConfig {
    pub version: u32,
    pub selected_model_id: String,
}

/// The only catalog and configuration format version understood.
pub const FORMAT_VERSION: u32 = 1;

impl Manifest {
    /// Accepts a catalog read from disk when its format version is 1.
    pub fn checked(version: u32, models: Vec<Model>) -> (r: Result<Manifest, LaunchError>)
        ensures
            version == FORMAT_VERSION <==> r is Ok,
            r matches Ok(m) ==> m.version == version && m.models == models,
            r matches Err(e) ==> e == (LaunchError::UnsupportedManifestVersion { version }),
    {
        if version != FORMAT_VERSION {
            return Err(LaunchError::UnsupportedManifestVersion { version });
        }
        Ok(Manifest { version, models })
    }
}

impl AppConfig {
    /// Accepts a setup choice read from disk when its format version is 1.
    pub fn checked(version: u32, selected_model_id: String) -> (r: Result<AppConfig, LaunchError>)
        ensures
            version == FORMAT_VERSION <==> r is Ok,
            r matches Ok(c) ==> c.version == version && c.selected_model_id == selected_model_id,
            r matches Err(e) ==> e == (LaunchError::UnsupportedConfigVersion { version }),
    {
        if version != FORMAT_VERSION {
            return Err(LaunchError::UnsupportedConfigVersion { version });
        }
        Ok(AppConfig { version, selected_model_id })
    }

    /// The setup choice saved for a selected model.
    pub fn selecting(model: &Model) -> (c: AppConfig)
        ensures
            c.version == FORMAT_VERSION,
            c.selected_model_id@ == model.id@,
    {
        let mut id = String::new();
        push_str(&mut id, model.id.as_str());
        AppConfig { version: FORMAT_VERSION, selected_model_id: id }
    }
}

/// `i` is the first position of a model with identifier `id`.
pub open spec fn first_with_id(models: Seq<Model>, id: Seq<char>, i: int) -> bool {
    &&& 0 <= i < models.len()
    &&& models[i].id@ == id
    &&& forall|j: int| 0 <= j < i ==> models[j].id@ != id
}

/// Some model has identifier `id`.
pub open spec fn has_id(models: Seq<Model>, id: Seq<char>) -> bool {
    exists|i: int| 0 <= i < models.len() && models[i].id@ == id
}

/// `e` reports that no model has identifier `id`.
pub open spec fn is_unknown_model(e: LaunchError, id: Seq<char>) -> bool {
    match e {
        LaunchError::UnknownModel { id: x } => x@ == id,
        _ => false,
    }
}

/// `r` is what looking `id` up among `models` gives: the first model with
/// that identifier, or an unknown-model error when there is none.
pub open spec fn lookup_result(models: Seq<Model>, id: Seq<char>, r: Result<&Model, LaunchError>) -> bool {
    &&& (r is Ok <==> has_id(models, id))
    &&& (r is Ok ==> exists|i: int| first_with_id(models, id, i) && *r->Ok_0 == models[i])
    &&& (r is Err ==> is_unknown_model(r->Err_0, id))
}

/// `e` reports that the model at position `i` is unsafe for the reasons
/// listed.
pub open spec fn is_not_safe(e: LaunchError, model: &Model, reasons: Seq<Incompatibility>) -> bool {
    match e {
        LaunchError::NotSafe { name, reasons: r } => name@ == model.name@ && r@ == reasons,
        _ => false,
    }
}

/// Looks a model up by identifier; the first match wins.
pub fn find_model<'a>(manifest: &'a Manifest, id: &str) -> (r: Result<&'a Model, LaunchError>)
    ensures
        lookup_result(manifest.models@, id@, r),
{
    let mut i: usize = 0;
    while i < manifest.models.len()
        invariant
            i <= manifest.models.len(),
            forall|j: int| 0 <= j < i ==> manifest.models@[j].id@ != id@,
        decreases manifest.models.len() - i,
    {
        if str_eq(manifest.models[i].id.as_str(), id) {
            assert(first_with_id(manifest.models@, id@, i as int));
            return Ok(&manifest.models[i]);
        }
        i = i + 1;
    }
    let mut missing = String::new();
    push_str(&mut missing, id);
    Err(LaunchError::UnknownModel { id: missing })
}

/// Looks a model up and accepts it only when nothing makes it unsafe on
/// this machine.
pub fn find_safe_model<'a>(manifest: &'a Manifest, machine: &Machine, id: &str, allow_cpu_fallback: bool) -> (r: Result<&'a Model, LaunchError>)
    ensures
        r is Ok <==> exists|i: int|
            first_with_id(manifest.models@, id@, i) && spec_incompatibilities(
                &manifest.models@[i],
                machine,
                allow_cpu_fallback,
            ).len() == 0,
        r matches Ok(m) ==> exists|i: int| first_with_id(manifest.models@, id@, i) && *m == manifest.models@[i],
        r matches Err(e) ==> (!has_id(manifest.models@, id@) && is_unknown_model(e, id@)) || (exists|i: int|
            first_with_id(manifest.models@, id@, i) && is_not_safe(
                e,
                &manifest.models@[i],
                spec_incompatibilities(&manifest.models@[i], machine, allow_cpu_fallback),
            ) && spec_incompatibilities(&manifest.models@[i], machine, allow_cpu_fallback).len() > 0),
{
    let model = find_model(manifest, id)?;
    let reasons = incompatibilities(model, machine, allow_cpu_fallback);
    if reasons.len() > 0 {
        let mut name = String::new();
        push_str(&mut name, model.name.as_str());
        return Err(LaunchError::NotSafe { name, reasons });
    }
    Ok(model)
}

/// The models that are safe on this machine, in catalog order.
pub open spec fn eligible(models: Seq<Model>, machine: &Machine, allow_cpu_fallback: bool) -> Seq<
    Model,
> {
    models.filter(|m: Model| spec_incompatibilities(&m, machine, allow_cpu_fallback).len() == 0)
}

/// The model at position `i` is safe on this machine.
pub open spec fn is_eligible(models: Seq<Model>, machine: &Machine, allow_cpu_fallback: bool, i: usize) -> bool {
    spec_incompatibilities(&models[i as int], machine, allow_cpu_fallback).len() == 0
}

/// The positions of the models that are safe on this machine, in catalog
/// order.
pub open spec fn eligible_indices(models: Seq<Model>, machine: &Machine, allow_cpu_fallback: bool) -> Seq<usize> {
    Seq::new(models.len(), |i: int| i as usize).filter(|i: usize| is_eligible(models, machine, allow_cpu_fallback, i))
}

/// The positions of the models that are safe on this machine, in catalog
/// order.
pub fn eligible_models(manifest: &Manifest, machine: &Machine, allow_cpu_fallback: bool) -> (r: Vec<usize>)
    ensures
        r@ == eligible_indices(manifest.models@, machine, allow_cpu_fallback),
        r@.map_values(|i: usize| manifest.models@[i as int]) == eligible(
            manifest.models@,
            machine,
            allow_cpu_fallback,
        ),
        forall|k: int| 0 <= k < r.len() ==> r@[k] < manifest.models.len(),
        forall|k: int, l: int| 0 <= k < l < r.len() ==> r@[k] < r@[l],
{
    let ghost pred = |m: Model| spec_incompatibilities(&m, machine, allow_cpu_fallback).len() == 0;
    let ghost ipred = |i: usize| is_eligible(manifest.models@, machine, allow_cpu_fallback, i);
    let ghost all = Seq::new(manifest.models@.len(), |i: int| i as usize);
    let mut out: Vec<usize> = Vec::new();
    let mut i: usize = 0;
    while i < manifest.models.len()
        invariant
            i <= manifest.models.len(),
            pred == (|m: Model| spec_incompatibilities(&m, machine, allow_cpu_fallback).len() == 0),
            ipred == (|i: usize| is_eligible(manifest.models@, machine, allow_cpu_fallback, i)),
            all == Seq::new(manifest.models@.len(), |i: int| i as usize),
            out@ == all.take(i as int).filter(ipred),
            out@.map_values(|j: usize| manifest.models@[j as int]) == manifest.models@.take(i as int).filter(pred),
            forall|k: int| 0 <= k < out.len() ==> out@[k] < i,
            forall|k: int, l: int| 0 <= k < l < out.len() ==> out@[k] < out@[l],
        decreases manifest.models.len() - i,
    {
        let reasons = incompatibilities(&manifest.models[i], machine, allow_cpu_fallback);
        proof {
            let m = manifest.models@[i as int];
            manifest.models@.take(i as int).lemma_filter_push(m, pred);
            assert(manifest.models@.take(i + 1) == manifest.models@.take(i as int).push(m));
            all.take(i as int).lemma_filter_push(i, ipred);
            assert(all.take(i + 1) == all.take(i as int).push(i));
        }
        if reasons.len() == 0 {
            out.push(i);
            assert(out@.map_values(|j: usize| manifest.models@[j as int]) =~= manifest.models@.take(
                i as int,
            ).filter(pred).push(manifest.models@[i as int]));
        }
        i = i + 1;
    }
    assert(manifest.models@.take(manifest.models.len() as int) == manifest.models@);
    assert(all.take(manifest.models.len() as int) == all);
    out
}

/// When some model has identifier `id`, one of them comes first.
pub proof fn lemma_first_exists(models: Seq<Model>, id: Seq<char>)
    requires
        has_id(models, id),
    ensures
        exists|i: int| first_with_id(models, id, i),
    decreases models.len(),
{
    let prefix = models.drop_last();
    if has_id(prefix, id) {
        lemma_first_exists(prefix, id);
        let i = choose|i: int| first_with_id(prefix, id, i);
        assert forall|j: int| 0 <= j <= i implies models[j] == prefix[j] by {}
        assert(first_with_id(models, id, i));
    } else {
        let k = choose|k: int| 0 <= k < models.len() && models[k].id@ == id;
        if k < models.len() - 1 {
            assert(prefix[k] == models[k]);
            assert(prefix[k].id@ == id);
        }
        assert forall|j: int| 0 <= j < models.len() - 1 implies models[j].id@ != id by {
            assert(prefix[j] == models[j]);
        }
        assert(first_with_id(models, id, models.len() - 1));
    }
}

/// The position of the first model with identifier `id`, if any.
pub open spec fn first_index(models: Seq<Model>, id: Seq<char>) -> Option<usize> {
    if has_id(models, id) {
        Some((choose|i: int| first_with_id(models, id, i)) as usize)
    } else {
        None
    }
}

proof fn lemma_first_index(models: Seq<Model>, id: Seq<char>, i: int)
    requires
        first_with_id(models, id, i),
    ensures
        first_index(models, id) == Some(i as usize),
{
    let j = choose|j: int| first_with_id(models, id, j);
    assert(first_with_id(models, id, j));
    if j < i {
        assert(models[j].id@ == id);
    }
    if i < j {
        assert(models[i].id@ == id);
    }
}

/// A position that `first_index` gives is that of the first model with the
/// identifier.
pub proof fn lemma_first_index_is_first(models: Seq<Model>, id: Seq<char>)
    requires
        models.len() <= usize::MAX,
    ensures
        first_index(models, id) matches Some(i) ==> first_with_id(models, id, i as int),
{
    if has_id(models, id) {
        lemma_first_exists(models, id);
        let j = choose|j: int| first_with_id(models, id, j);
        assert(first_with_id(models, id, j));
    }
}

proof fn lemma_no_index(models: Seq<Model>, id: Seq<char>)
    requires
        forall|j: int| 0 <= j < models.len() ==> models[j].id@ != id,
    ensures
        first_index(models, id) is None,
{
}

/// No two models of the catalog share an identifier.
pub open spec fn unique_ids(models: Seq<Model>) -> bool {
    forall|i: int, j: int| 0 <= i < j < models.len() ==> models[i].id@ != models[j].id@
}

/// In a catalog whose identifiers are unique, the identifier saved for a
/// model selects that same model again.
pub proof fn saved_choice_selects_same_model(models: Seq<Model>, i: int)
    requires
        0 <= i < models.len(),
        i <= usize::MAX,
        unique_ids(models),
    ensures
        first_index(models, models[i].id@) == Some(i as usize),
{
    assert(first_with_id(models, models[i].id@, i));
    lemma_first_index(models, models[i].id@, i);
}

/// The position of the first model with identifier `id`.
pub fn find_model_index(manifest: &Manifest, id: &str) -> (r: Option<usize>)
    ensures
        r == first_index(manifest.models@, id@),
        r matches Some(i) ==> first_with_id(manifest.models@, id@, i as int),
{
    let mut i: usize = 0;
    while i < manifest.models.len()
        invariant
            i <= manifest.models.len(),
            forall|j: int| 0 <= j < i ==> manifest.models@[j].id@ != id@,
        decreases manifest.models.len() - i,
    {
        if str_eq(manifest.models[i].id.as_str(), id) {
            proof {
                lemma_first_index(manifest.models@, id@, i as int);
            }
            return Some(i);
        }
        i = i + 1;
    }
    proof {
        lemma_no_index(manifest.models@, id@);
    }
    None
}

/// The reasons each model of the catalog is unavailable, in catalog order.
pub fn assess_models(manifest: &Manifest, machine: &Machine, allow_cpu_fallback: bool) -> (r: Vec<Vec<Incompatibility>>)
    ensures
        r.len() == manifest.models.len(),
        forall|i: int|
            0 <= i < r.len() ==> #[trigger] r@[i]@ == spec_incompatibilities(
                &manifest.models@[i],
                machine,
                allow_cpu_fallback,
            ),
{
    let mut out: Vec<Vec<Incompatibility>> = Vec::new();
    let mut i: usize = 0;
    while i < manifest.models.len()
        invariant
            i <= manifest.models.len(),
            out.len() == i,
            forall|k: int|
                0 <= k < i ==> #[trigger] out@[k]@ == spec_incompatibilities(
                    &manifest.models@[k],
                    machine,
                    allow_cpu_fallback,
                ),
        decreases manifest.models.len() - i,
    {
        out.push(incompatibilities(&manifest.models[i], machine, allow_cpu_fallback));
        i = i + 1;
    }
    out
}

/// The model to act on: the requested one, or else the one saved by setup.
/// Without a request and without a saved choice, setup has to run first.
pub fn selected_model<'a>(manifest: &'a Manifest, requested: Option<&str>, config: Option<&AppConfig>) -> (r: Result<&'a Model, LaunchError>)
    ensures
        requested matches Some(id) ==> lookup_result(manifest.models@, id@, r),
        requested is None && config is None ==> r == Err::<&Model, LaunchError>(LaunchError::SetupRequired),
        requested is None && config is Some ==> lookup_result(
            manifest.models@,
            config->Some_0.selected_model_id@,
            r,
        ),
{
    match requested {
        Some(id) => find_model(manifest, id),
        None => match config {
            Some(c) => find_model(manifest, c.selected_model_id.as_str()),
            None => Err(LaunchError::SetupRequired),
        },
    }
}

} // verus!
