//! Session delivery boundaries: routes command strings against the kernel's
//! world metadata, without any network I/O of its own.

use vstd::prelude::*;
use vstd::string::StringExecFns;
use crate::kernel::Kernel;

verus! {

/// Routes commands for the world the kernel manages.
pub struct Router {
    kernel: Kernel,
}

impl Router {
    /// The routing line for a command: `Routing '<command>' for world <id>`.
    pub open spec fn spec_route_line(command: Seq<char>, world: Seq<char>) -> Seq<char> {
        "Routing '"@ + command + "' for world "@ + world
    }

    /// The identity of the world this router serves.
    pub closed spec fn spec_world_id(&self) -> Seq<char> {
        self.kernel.spec_world_id()
    }

    /// Create a new router around the provided kernel.
    pub fn new(kernel: Kernel) -> (r: Router)
        ensures
            r.spec_world_id() == kernel.spec_world_id(),
    {
        Router { kernel }
    }

    /// Route a command string to the kernel.
    pub fn route(&self, command: &str) -> (line: String)
        ensures
            line@ == Router::spec_route_line(command@, self.spec_world_id()),
    {
        let mut line = "Routing '".to_owned();
        line.append(command);
        line.append("' for world ");
        line.append(self.kernel.world_id());
        proof {
            assert(line@ =~= Router::spec_route_line(command@, self.spec_world_id()));
        }
        line
    }

    /// Expose lightweight context for transports.
    pub fn world_context(&self) -> (id: &'static str)
        ensures
            id@ == self.spec_world_id(),
    {
        self.kernel.world_id()
    }

    /// Create the default router tied to the default kernel.
    pub fn with_default_kernel() -> (r: Router)
        ensures
            r.spec_world_id() == Kernel::spec_default_world_id(),
    {
        Router::new(Kernel::new())
    }
}

impl Default for Router {
    fn default() -> (r: Router)
        ensures
            r.spec_world_id() == Kernel::spec_default_world_id(),
    {
        Router::with_default_kernel()
    }
}

} // verus!
