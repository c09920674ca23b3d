//! Delivery plumbing around the router: formats delivered payloads with the
//! router's world context, without touching gameplay logic.

use vstd::prelude::*;
use vstd::string::StringExecFns;
use crate::router::Router;

verus! {

/// Delivers payloads via a router's world context.
pub struct Transport {
    router: Router,
}

impl Transport {
    /// The delivery line for a payload: `Delivered '<payload>' into <world>`.
    pub open spec fn spec_delivery_line(payload: Seq<char>, world: Seq<char>) -> Seq<char> {
        "Delivered '"@ + payload + "' into "@ + world
    }

    /// The identity of the world this transport delivers into.
    pub closed spec fn spec_world_id(&self) -> Seq<char> {
        self.router.spec_world_id()
    }

    /// Compose transports over the provided router.
    pub fn new(router: Router) -> (t: Transport)
        ensures
            t.spec_world_id() == router.spec_world_id(),
    {
        Transport { router }
    }

    /// Expose the router's world context.
    pub fn world_context(&self) -> (id: &'static str)
        ensures
            id@ == self.spec_world_id(),
    {
        self.router.world_context()
    }

    /// Deliver a payload via the router context.
    pub fn deliver(&self, payload: &str) -> (line: String)
        ensures
            line@ == Transport::spec_delivery_line(payload@, self.spec_world_id()),
    {
        let mut line = "Delivered '".to_owned();
        line.append(payload);
        line.append("' into ");
        line.append(self.router.world_context());
        proof {
            assert(line@ =~= Transport::spec_delivery_line(payload@, self.spec_world_id()));
        }
        line
    }
}

} // verus!
