//! The closed set of loaders a profile may name, and the dispatch from the
//! profile's `loader` string onto it.

use vstd::prelude::*;

use crate::text::str_eq;

verus! {

/// A modification framework that patches or replaces the client's bootstrap.
#[derive(Clone, Copy, PartialEq, Eq, Debug, Structural)]
pub enum LoaderKind {
    Vanilla,
    Fabric,
    Quilt,
    NeoForge,
    Forge,
    OptiFine,
    Unknown,
}

/// The loader named by `loader`, as the installer dispatches it.
pub open spec fn spec_loader_kind(loader: Seq<char>) -> LoaderKind {
    if loader == "vanilla"@ {
        LoaderKind::Vanilla
    } else if loader == "fabric"@ {
        LoaderKind::Fabric
    } else if loader == "quilt"@ {
        LoaderKind::Quilt
    } else if loader == "neoforge"@ {
        LoaderKind::NeoForge
    } else if loader == "forge"@ {
        LoaderKind::Forge
    } else if loader == "optifine"@ {
        LoaderKind::OptiFine
    } else {
        LoaderKind::Unknown
    }
}

/// Maps the profile's `loader` string onto the loader it names.
pub fn loader_kind(loader: &str) -> (k: LoaderKind)
    ensures
        k == spec_loader_kind(loader@),
{
    if str_eq(loader, "vanilla") {
        LoaderKind::Vanilla
    } else if str_eq(loader, "fabric") {
        LoaderKind::Fabric
    } else if str_eq(loader, "quilt") {
        LoaderKind::Quilt
    } else if str_eq(loader, "neoforge") {
        LoaderKind::NeoForge
    } else if str_eq(loader, "forge") {
        LoaderKind::Forge
    } else if str_eq(loader, "optifine") {
        LoaderKind::OptiFine
    } else {
        LoaderKind::Unknown
    }
}

} // verus!
