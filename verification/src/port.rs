//! Port: a minimal second kernel-object kind.
//!
//! Ports are consumed by the layered waiter mechanism, which is outside
//! this core; here a port carries only its identity. Having a second
//! concrete kind keeps the downcast on `KObject` honest: a channel
//! operation applied to a port handle fails with `BadHandle`.

use vstd::prelude::*;

use crate::handle::Handle;
use crate::object::{same_object, KernelObject, KoID, ObjectTable};
use crate::rights::Rights;

verus! {

/// Exactly what creating a port does: one fresh identifier — the next
/// the table will ever issue — naming a live non-channel object with
/// one reference, held by the returned handle; every object that
/// existed before is untouched.
pub open spec fn port_create_post(t0: ObjectTable, t1: ObjectTable, h: Handle) -> bool {
    let k = t0.object_count() as KoID;
    &&& t1.object_count() == t0.object_count() + 1
    &&& h.spec_id() == k
    &&& h.spec_rights() == Rights::spec_port_default()
    &&& t1.is_koid(k)
    &&& !t1.is_channel(k)
    &&& t1.handle_count(k) == 1
    &&& forall|j: KoID| t0.is_koid(j) ==> same_object(t0, t1, j)
}

/// A kernel object with identity only; its wait/notify semantics live in
/// a layer above this core.
pub struct Port {
    pub(crate) koid: KoID,
}

impl Port {
    /// Builds a port record carrying the identifier `koid`.
    pub fn new(koid: KoID) -> (p: Port)
        ensures
            p.spec_id() == koid,
    {
        Port { koid }
    }

    /// Allocates a fresh port with its own KoID and wraps it in a
    /// handle carrying the default port rights.
    pub fn create(table: &mut ObjectTable) -> (h: Handle)
        requires
            old(table).wf(),
            old(table).object_count() + 1 <= KoID::MAX,
        ensures
            final(table).wf(),
            port_create_post(*old(table), *final(table), h),
    {
        table.insert_port()
    }
}

impl KernelObject for Port {
    closed spec fn spec_id(&self) -> KoID {
        self.koid
    }

    fn id(&self) -> (k: KoID) {
        self.koid
    }
}

} // verus!
