//! The deployment topology the process runs under.

use vstd::prelude::*;

verus! {

/// The two mutually exclusive deployment topologies. Fixed for the lifetime
/// of the process and shared read-only by every request.
#[derive(Clone, Copy, Debug, PartialEq, Eq, Structural)]
pub enum Endpoint {
    /// One ledger shared by every client: requests carry no service id.
    SharedLedger,
    /// A multi-tenant, circuit-scoped ledger: every request names its circuit.
    CircuitScoped,
}

impl Endpoint {
    /// Whether a request must carry a `service_id` under this topology.
    pub open spec fn requires_service_id(self) -> bool {
        self is CircuitScoped
    }

    /// Whether the process runs against one shared ledger.
    pub fn is_shared_ledger(&self) -> (r: bool)
        ensures
            r == (*self is SharedLedger),
    {
        match self {
            Endpoint::SharedLedger => true,
            Endpoint::CircuitScoped => false,
        }
    }
}

} // verus!
