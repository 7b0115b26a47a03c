use vstd::prelude::*;
use crate::identity::HelperIdentity;

verus! {

/// The transports a helper may use, as one type so that the layers above need
/// not be generic over the transport. Each variant knows the helper it serves;
/// moving bytes is done by the caller's runtime for that variant.
#[derive(Debug, Clone, Copy, PartialEq, Eq, Structural)]
pub enum TransportImpl {
    /// Helpers in one process, for tests.
    InMemory(HelperIdentity),
    /// Helpers talking over the network.
    RealWorld(HelperIdentity),
}

impl TransportImpl {
    /// The helper this transport serves.
    pub open spec fn identity_spec(&self) -> HelperIdentity {
        match self {
            TransportImpl::InMemory(id) => *id,
            TransportImpl::RealWorld(id) => *id,
        }
    }

    /// The helper this transport serves; it never changes for a handle.
    pub fn identity(&self) -> (id: HelperIdentity)
        ensures
            id == self.identity_spec(),
    {
        match self {
            TransportImpl::InMemory(id) => *id,
            TransportImpl::RealWorld(id) => *id,
        }
    }
}

} // verus!
