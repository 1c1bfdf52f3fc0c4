//! Why a launcher command stopped.

use vstd::prelude::*;
use crate::catalog::RuntimeProfile;
use crate::compat::Incompatibility;

verus! {

/// Why a launcher command stopped. Each variant carries what its message
/// names.
pub enum LaunchError {
    /// The catalog has a format version other than 1.
    UnsupportedManifestVersion { version: u32 },
    /// The saved setup choice has a format version other than 1.
    UnsupportedConfigVersion { version: u32 },
    /// No model of the catalog has this identifier.
    UnknownModel { id: String },
    /// The model cannot run safely on this machine.
    NotSafe { name: String, reasons: Vec<Incompatibility> },
    /// No model was requested and setup has not saved one.
    SetupRequired,
    /// The selected profile cannot run on this machine (preflight).
    NotEligible { reasons: Vec<Incompatibility> },
    /// `--accept-download` without `--model`.
    AcceptWithoutModel,
    /// Both `--accept-download` and `--skip-download`.
    AcceptAndSkip,
    /// Interactive setup found no profile it could offer.
    NoEligibleProfiles,
    /// The profile number typed was not a number.
    NotANumber,
    /// The profile number typed is not in the list.
    SelectionOutOfRange,
    /// No runtime binary was found for the profile.
    NoRuntime { profile: RuntimeProfile },
}

} // verus!
