//! Handle: a rights-qualified reference to a kernel object.
//!
//! A handle is the only thing user-visible code ever holds; it names an
//! object by its KoID and limits what may be done through it by a rights
//! set. Many handles may reference the same object, each with its own
//! rights. The object table tracks how many references each object has;
//! a handle value by itself is just the (identifier, rights) pair.

use vstd::prelude::*;

use crate::error::ZxError;
use crate::object::{same_object, KoID, ObjectTable};
use crate::rights::{Rights, RIGHT_DUPLICATE};

verus! {

/// Duplication through `h` goes through: the handle names a live
/// object, carries the duplicate right, and asks only for rights it
/// already holds.
pub open spec fn dup_allowed(t: ObjectTable, h: Handle, requested: Rights) -> bool {
    &&& t.live(h.spec_id())
    &&& h.spec_rights().spec_contains(RIGHT_DUPLICATE)
    &&& requested.spec_subset_of(h.spec_rights())
}

/// Which error a refused duplication reports, checked in this order: a
/// dead object, then a missing duplicate right, then a rights request
/// exceeding what the source handle holds.
pub open spec fn dup_err(t: ObjectTable, h: Handle, requested: Rights) -> ZxError {
    if !t.live(h.spec_id()) {
        ZxError::BadHandle
    } else if !h.spec_rights().spec_contains(RIGHT_DUPLICATE) {
        ZxError::AccessDenied
    } else {
        ZxError::InvalidArgs
    }
}

/// Exactly what duplicating a handle does: on success a new handle to
/// the same object, carrying exactly the requested rights — never more
/// — and one more registered reference; the object itself and every
/// other object are untouched. A refused duplication reports the error
/// above and changes nothing.
pub open spec fn duplicate_post(
    t0: ObjectTable,
    t1: ObjectTable,
    h: Handle,
    requested: Rights,
    r: Result<Handle, ZxError>,
) -> bool {
    let k = h.spec_id();
    match r {
        Ok(h2) => {
            &&& dup_allowed(t0, h, requested)
            &&& h2.spec_id() == k
            &&& h2.spec_rights() == requested
            &&& t1.object_count() == t0.object_count()
            &&& t1.handle_count(k) == t0.handle_count(k) + 1
            &&& t1.is_channel(k) == t0.is_channel(k)
            &&& t0.is_channel(k) ==> t1.peer(k) == t0.peer(k) && t1.queue(k) == t0.queue(k)
            &&& forall|j: KoID| t0.is_koid(j) && j != k ==> same_object(t0, t1, j)
        },
        Err(e) => {
            &&& !dup_allowed(t0, h, requested)
            &&& e == dup_err(t0, h, requested)
            &&& t1 == t0
        },
    }
}

/// Rights monotonicity of duplication: on a live source handle that
/// carries the duplicate right, duplication succeeds exactly when the
/// requested rights are a subset of the source's, and the new handle
/// then carries exactly the requested rights — a subset, never a
/// superset, of what the source held.
pub proof fn lemma_duplicate_rights_monotonic(
    t0: ObjectTable,
    t1: ObjectTable,
    h: Handle,
    requested: Rights,
    r: Result<Handle, ZxError>,
)
    requires
        t0.live(h.spec_id()),
        h.spec_rights().spec_contains(RIGHT_DUPLICATE),
        duplicate_post(t0, t1, h, requested, r),
    ensures
        r is Ok <==> requested.spec_subset_of(h.spec_rights()),
        r matches Ok(h2) ==> h2.spec_rights() == requested
            && h2.spec_rights().spec_subset_of(h.spec_rights()),
{
}

/// A rights-qualified reference to a kernel object.
///
/// `Handle` is deliberately not `Clone`: new references to an object are
/// minted only through `duplicate`, which checks rights and registers the
/// new reference with the object table.
#[derive(Debug)]
pub struct Handle {
    koid: KoID,
    rights: Rights,
}

impl Handle {
    /// The identifier of the object this handle references.
    pub closed spec fn spec_id(self) -> KoID {
        self.koid
    }

    /// The rights this handle carries.
    pub closed spec fn spec_rights(self) -> Rights {
        self.rights
    }

    /// Pairs an object identifier with a rights set.
    ///
    /// This performs no validation and does not register a reference with
    /// the object table; constructors such as channel creation and
    /// `duplicate` do that themselves and then wrap the result here.
    pub fn new(koid: KoID, rights: Rights) -> (h: Handle)
        ensures
            h.spec_id() == koid,
            h.spec_rights() == rights,
    {
        Handle { koid, rights }
    }

    /// The identifier of the object this handle references.
    pub fn id(&self) -> (k: KoID)
        ensures
            k == self.spec_id(),
    {
        self.koid
    }

    /// The rights this handle carries.
    pub fn rights(&self) -> (r: Rights)
        ensures
            r == self.spec_rights(),
    {
        self.rights
    }

    /// Mints a new handle to the same object, carrying exactly
    /// `requested` — which must be a subset of this handle's rights:
    /// duplication never escalates. Requires the duplicate right on the
    /// source.
    pub fn duplicate(&self, table: &mut ObjectTable, requested: Rights) -> (r: Result<
        Handle,
        ZxError,
    >)
        requires
            old(table).wf(),
            old(table).live(self.spec_id()) ==> old(table).handle_count(self.spec_id())
                < u64::MAX,
        ensures
            final(table).wf(),
            duplicate_post(*old(table), *final(table), *self, requested, r),
    {
        table.dup_handle(self, requested)
    }
}

} // verus!
