//! The classic Forge loader: declared, dispatched as a no-op, and kept only
//! as an identity pair until an install pipeline exists for it.

use vstd::prelude::*;

verus! {

/// A classic Forge version pair; installing it is currently a no-op.
pub struct ForgeLoader {
    pub version: String,
    pub loader_version: String,
}

impl ForgeLoader {
    pub fn new(version: String, loader_version: String) -> (r: Self)
        ensures
            r.get_version_spec() == version@,
            r.get_loader_version_spec() == loader_version@,
    {
        ForgeLoader { version, loader_version }
    }

    pub open spec fn get_version_spec(&self) -> Seq<char> {
        self.version@
    }

    pub open spec fn get_loader_version_spec(&self) -> Seq<char> {
        self.loader_version@
    }

    pub fn get_version(&self) -> (r: &str)
        ensures
            r@ == self.get_version_spec(),
    {
        self.version.as_str()
    }

    pub fn get_loader_version(&self) -> (r: &str)
        ensures
            r@ == self.get_loader_version_spec(),
    {
        self.loader_version.as_str()
    }
}

} // verus!
