//! Authoritative world identity: the single world this deployment hosts.

use vstd::prelude::*;

verus! {

/// The single world that this engine hosts.
pub struct Kernel {
    world_id: &'static str,
}

impl Kernel {
    /// The identifier of the default world.
    pub open spec fn spec_default_world_id() -> Seq<char> {
        "aqevia-default-world"@
    }

    /// The identifier of the world this kernel manages.
    pub closed spec fn spec_world_id(&self) -> Seq<char> {
        self.world_id@
    }

    /// Create a new kernel instance for the default world.
    pub fn new() -> (k: Kernel)
        ensures
            k.spec_world_id() == Kernel::spec_default_world_id(),
    {
        Kernel { world_id: "aqevia-default-world" }
    }

    /// Identity of the single world managed by this kernel.
    pub fn world_id(&self) -> (id: &'static str)
        ensures
            id@ == self.spec_world_id(),
    {
        self.world_id
    }
}

impl Default for Kernel {
    fn default() -> (k: Kernel)
        ensures
            k.spec_world_id() == Kernel::spec_default_world_id(),
    {
        Kernel::new()
    }
}

} // verus!
