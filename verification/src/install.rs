//! The install pipeline of each loader, as an ordered list of phases.
//!
//! A phase is a group of steps that may run concurrently — they touch
//! disjoint sub-trees of the profile — and phases run strictly in order.
//! Forge and unknown loaders install nothing and succeed, as a diagnosed
//! no-op.

use vstd::prelude::*;

use crate::loader::LoaderKind;

verus! {

/// One step of an install pipeline.
#[derive(Clone, Copy, PartialEq, Eq, Debug, Structural)]
pub enum InstallStep {
    /// Fetch and verify the client JAR.
    Client,
    /// Fetch and verify the descriptor's libraries.
    Libraries,
    /// Fetch, extract and clean up the native classifiers.
    Natives,
    /// Fetch the asset index and the asset objects.
    Assets,
    /// Fetch the Fabric profile's coordinate-only libraries.
    FabricLibraries,
    /// Fetch the Quilt profile's coordinate-only libraries.
    QuiltLibraries,
    /// Fetch and run the NeoForge installer, then keep its profile JSON.
    NeoForgeInstaller,
    /// Fetch the libraries of the installer-emitted profile.
    NeoForgeLibraries,
    /// Scrape and fetch the OptiFine client JAR.
    OptifineClient,
}

/// The phases of a loader's install: outer sequence ordered, inner steps
/// concurrent.
pub open spec fn spec_install_phases(kind: LoaderKind) -> Seq<Seq<InstallStep>> {
    match kind {
        LoaderKind::Vanilla => seq![
            seq![InstallStep::Client, InstallStep::Libraries, InstallStep::Natives, InstallStep::Assets],
        ],
        LoaderKind::Fabric => seq![
            seq![
                InstallStep::Client,
                InstallStep::Libraries,
                InstallStep::FabricLibraries,
                InstallStep::Natives,
                InstallStep::Assets,
            ],
        ],
        LoaderKind::Quilt => seq![
            seq![InstallStep::Client],
            seq![InstallStep::Libraries],
            seq![InstallStep::QuiltLibraries],
            seq![InstallStep::Natives],
            seq![InstallStep::Assets],
        ],
        LoaderKind::NeoForge => seq![
            seq![InstallStep::Client],
            seq![InstallStep::Libraries],
            seq![InstallStep::Natives],
            seq![InstallStep::Assets],
            seq![InstallStep::NeoForgeInstaller],
            seq![InstallStep::NeoForgeLibraries],
        ],
        LoaderKind::OptiFine => seq![
            seq![InstallStep::OptifineClient],
            seq![InstallStep::Libraries],
            seq![InstallStep::Natives],
            seq![InstallStep::Assets],
        ],
        LoaderKind::Forge => Seq::<Seq<InstallStep>>::empty(),
        LoaderKind::Unknown => Seq::<Seq<InstallStep>>::empty(),
    }
}

/// The install phases of a loader.  An empty plan means the dispatch is a
/// no-op that succeeds without side effects.
pub fn install_phases(kind: LoaderKind) -> (r: Vec<Vec<InstallStep>>)
    ensures
        r@.len() == spec_install_phases(kind).len(),
        forall|i: int| 0 <= i < r@.len() ==> (#[trigger] r@[i])@ == spec_install_phases(kind)[i],
{
    let mut phases: Vec<Vec<InstallStep>> = Vec::new();
    match kind {
        LoaderKind::Vanilla => {
            let mut g: Vec<InstallStep> = Vec::new();
            g.push(InstallStep::Client);
            g.push(InstallStep::Libraries);
            g.push(InstallStep::Natives);
            g.push(InstallStep::Assets);
            proof {
                assert(g@ =~= spec_install_phases(kind)[0]);
            }
            phases.push(g);
        },
        LoaderKind::Fabric => {
            let mut g: Vec<InstallStep> = Vec::new();
            g.push(InstallStep::Client);
            g.push(InstallStep::Libraries);
            g.push(InstallStep::FabricLibraries);
            g.push(InstallStep::Natives);
            g.push(InstallStep::Assets);
            proof {
                assert(g@ =~= spec_install_phases(kind)[0]);
            }
            phases.push(g);
        },
        LoaderKind::Quilt => {
            phases.push(single_step(InstallStep::Client));
            phases.push(single_step(InstallStep::Libraries));
            phases.push(single_step(InstallStep::QuiltLibraries));
            phases.push(single_step(InstallStep::Natives));
            phases.push(single_step(InstallStep::Assets));
            proof {
                assert(forall|i: int|
                    0 <= i < phases@.len() ==> (#[trigger] phases@[i])@ =~= spec_install_phases(
                        kind,
                    )[i]);
            }
        },
        LoaderKind::NeoForge => {
            phases.push(single_step(InstallStep::Client));
            phases.push(single_step(InstallStep::Libraries));
            phases.push(single_step(InstallStep::Natives));
            phases.push(single_step(InstallStep::Assets));
            phases.push(single_step(InstallStep::NeoForgeInstaller));
            phases.push(single_step(InstallStep::NeoForgeLibraries));
            proof {
                assert(forall|i: int|
                    0 <= i < phases@.len() ==> (#[trigger] phases@[i])@ =~= spec_install_phases(
                        kind,
                    )[i]);
            }
        },
        LoaderKind::OptiFine => {
            phases.push(single_step(InstallStep::OptifineClient));
            phases.push(single_step(InstallStep::Libraries));
            phases.push(single_step(InstallStep::Natives));
            phases.push(single_step(InstallStep::Assets));
            proof {
                assert(forall|i: int|
                    0 <= i < phases@.len() ==> (#[trigger] phases@[i])@ =~= spec_install_phases(
                        kind,
                    )[i]);
            }
        },
        LoaderKind::Forge => {},
        LoaderKind::Unknown => {},
    }
    phases
}

/// A phase of one step.
fn single_step(step: InstallStep) -> (r: Vec<InstallStep>)
    ensures
        r@ == seq![step],
{
    let mut g: Vec<InstallStep> = Vec::new();
    g.push(step);
    proof {
        assert(g@ =~= seq![step]);
    }
    g
}

} // verus!
