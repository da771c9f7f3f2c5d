//! The installation of the package: listed first, removed where it lacks
//! features, then installed.

use vstd::prelude::*;
use vstd::utf8::encode_utf8;
use crate::orchestrator::error::SetupError;
use crate::package::{listing_names, listing_satisfies, views_of, PackageRequirement};
use crate::text::contains;

verus! {

/// Where the installation of the package stands.
#[derive(Clone, Copy, Debug, PartialEq, Eq)]
pub enum InstallState {
    /// Waiting to hear whether the tool's executable exists.
    AwaitTool,
    /// Waiting for the listing of the installed packages.
    AwaitListing,
    /// Waiting for the removal of the package that lacks features.
    AwaitRemove,
    /// Waiting for the install command.
    AwaitInstall,
    /// The package is installed with every required feature.
    Finished,
    /// The stage failed.
    Failed(SetupError),
}

/// What the driver of the installation has to do next.
#[derive(Clone, Copy, Debug, PartialEq, Eq)]
pub enum InstallAction {
    /// Look whether the tool's executable exists, and report it.
    ProbeTool,
    /// Ask the tool to list the package; report whether it exited with
    /// success, and what it printed.
    ListPackage,
    /// Ask the tool to remove the package, and report whether it exited
    /// with success.
    RemovePackage,
    /// Ask the tool to install the package with its features, and report
    /// whether it exited with success.
    InstallPackage,
    /// Nothing is left to do.
    Succeed,
    /// Give up with this error.
    Fail(SetupError),
}

/// The state the installation starts in.
pub open spec fn install_start() -> InstallState {
    InstallState::AwaitTool
}

/// The state that follows `state` when the driver reports `ok` and, for a
/// listing, the text `output`.
pub open spec fn install_next(
    name: Seq<char>,
    triplet: Seq<char>,
    features: Seq<Seq<char>>,
    state: InstallState,
    ok: bool,
    output: Seq<u8>,
) -> InstallState {
    match state {
        InstallState::AwaitTool => if ok {
            InstallState::AwaitListing
        } else {
            InstallState::Failed(SetupError::ToolMissing)
        },
        InstallState::AwaitListing => if ok && listing_satisfies(output, name, triplet, features) {
            InstallState::Finished
        } else if ok && listing_names(output, name, triplet) {
            InstallState::AwaitRemove
        } else {
            InstallState::AwaitInstall
        },
        InstallState::AwaitRemove => if ok {
            InstallState::AwaitInstall
        } else {
            InstallState::Failed(SetupError::RemoveFailed)
        },
        InstallState::AwaitInstall => if ok {
            InstallState::Finished
        } else {
            InstallState::Failed(SetupError::InstallFailed)
        },
        InstallState::Finished => InstallState::Finished,
        InstallState::Failed(e) => InstallState::Failed(e),
    }
}

/// What the driver has to do in `state`.
pub open spec fn install_pending(state: InstallState) -> InstallAction {
    match state {
        InstallState::AwaitTool => InstallAction::ProbeTool,
        InstallState::AwaitListing => InstallAction::ListPackage,
        InstallState::AwaitRemove => InstallAction::RemovePackage,
        InstallState::AwaitInstall => InstallAction::InstallPackage,
        InstallState::Finished => InstallAction::Succeed,
        InstallState::Failed(e) => InstallAction::Fail(e),
    }
}

/// The state the installation starts in: the driver is asked first whether
/// the tool is there.
pub fn start_install() -> (r: InstallState)
    ensures
        r == install_start(),
{
    InstallState::AwaitTool
}

/// What the driver has to do in `state`.
pub fn install_action(state: InstallState) -> (r: InstallAction)
    ensures
        r == install_pending(state),
{
    match state {
        InstallState::AwaitTool => InstallAction::ProbeTool,
        InstallState::AwaitListing => InstallAction::ListPackage,
        InstallState::AwaitRemove => InstallAction::RemovePackage,
        InstallState::AwaitInstall => InstallAction::InstallPackage,
        InstallState::Finished => InstallAction::Succeed,
        InstallState::Failed(e) => InstallAction::Fail(e),
    }
}

/// The state that follows `state` when the driver reports `ok` for the
/// action that `state` asked for; `output` is what a listing printed, and
/// is not read otherwise.
///
/// A listing that satisfies the requirement ends the stage with success and
/// nothing is installed. A listing that names the package for the triplet
/// without every feature has the package removed first, and a failed
/// removal ends the stage. In every other case, a listing that could not be
/// had included, the package is installed, and the exit status of the
/// install command decides.
pub fn install_step(
    requirement: &PackageRequirement,
    state: InstallState,
    ok: bool,
    output: &[u8],
) -> (r: InstallState)
    ensures
        r == install_next(
            requirement.name@,
            requirement.triplet@,
            views_of(requirement.features@),
            state,
            ok,
            output@,
        ),
{
    match state {
        InstallState::AwaitTool => if ok {
            InstallState::AwaitListing
        } else {
            InstallState::Failed(SetupError::ToolMissing)
        },
        InstallState::AwaitListing => if ok && requirement.is_satisfied_by(output) {
            InstallState::Finished
        } else if ok && requirement.is_listed_in(output) {
            InstallState::AwaitRemove
        } else {
            InstallState::AwaitInstall
        },
        InstallState::AwaitRemove => if ok {
            InstallState::AwaitInstall
        } else {
            InstallState::Failed(SetupError::RemoveFailed)
        },
        InstallState::AwaitInstall => if ok {
            InstallState::Finished
        } else {
            InstallState::Failed(SetupError::InstallFailed)
        },
        InstallState::Finished => InstallState::Finished,
        InstallState::Failed(e) => InstallState::Failed(e),
    }
}

/// The number of answers the installation can still take in `state`.
pub open spec fn install_steps_left(state: InstallState) -> int {
    match state {
        InstallState::AwaitTool => 4,
        InstallState::AwaitListing => 3,
        InstallState::AwaitRemove => 2,
        InstallState::AwaitInstall => 1,
        InstallState::Finished => 0,
        InstallState::Failed(_) => 0,
    }
}

/// The installation ends: every answer takes the machine closer to its end.
pub proof fn law_install_ends(
    name: Seq<char>,
    triplet: Seq<char>,
    features: Seq<Seq<char>>,
    state: InstallState,
    ok: bool,
    output: Seq<u8>,
)
    requires
        !(state is Finished || state is Failed),
    ensures
        0 <= install_steps_left(install_next(name, triplet, features, state, ok, output))
            < install_steps_left(state),
{
}

/// A listing that satisfies the requirement ends the stage with success:
/// nothing is removed and nothing is installed.
pub proof fn law_satisfied_requirement_installs_nothing(
    name: Seq<char>,
    triplet: Seq<char>,
    features: Seq<Seq<char>>,
    output: Seq<u8>,
)
    requires
        listing_satisfies(output, name, triplet, features),
    ensures
        install_next(name, triplet, features, InstallState::AwaitListing, true, output)
            == InstallState::Finished,
{
}

/// A package that is listed for the triplet without every feature is
/// removed before it is installed, and is not installed where the removal
/// fails.
pub proof fn law_incomplete_package_is_removed_first(
    name: Seq<char>,
    triplet: Seq<char>,
    features: Seq<Seq<char>>,
    output: Seq<u8>,
)
    requires
        listing_names(output, name, triplet),
        !listing_satisfies(output, name, triplet, features),
    ensures
        install_next(name, triplet, features, InstallState::AwaitListing, true, output)
            == InstallState::AwaitRemove,
        install_next(name, triplet, features, InstallState::AwaitRemove, false, output)
            == InstallState::Failed(SetupError::RemoveFailed),
        install_next(name, triplet, features, InstallState::AwaitRemove, true, output)
            == InstallState::AwaitInstall,
{
}

/// A listing made for another triplet never ends the stage as satisfied:
/// the package is installed for this triplet, whatever features the listing
/// names.
pub proof fn law_other_triplet_is_installed(
    name: Seq<char>,
    triplet: Seq<char>,
    features: Seq<Seq<char>>,
    ok: bool,
    output: Seq<u8>,
)
    requires
        !contains(output, encode_utf8(triplet)),
    ensures
        !listing_satisfies(output, name, triplet, features),
        install_next(name, triplet, features, InstallState::AwaitListing, ok, output)
            == InstallState::AwaitInstall,
{
}

} // verus!
