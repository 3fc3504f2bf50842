//! Kernel-object identity, the uniform object capability, and the object
//! table.
//!
//! Every kernel object gets exactly one KoID for its lifetime, minted by
//! a single monotonic allocator. Objects are stored uniformly as
//! `KObject` values in an `ObjectTable`, which also tracks how many live
//! references (handles) each object has; an object whose count reaches
//! zero is dead and stays dead — identifiers are never reused.

use vstd::prelude::*;

use crate::channel::Channel;
use crate::error::ZxError;
use crate::handle::Handle;
use crate::packet::MessagePacket;
use crate::port::Port;
use crate::rights::Rights;

verus! {

/// Unique integer identity assigned to every kernel object for its
/// lifetime.
pub type KoID = u64;

/// The single source of kernel-object identifiers.
///
/// Every call returns a value strictly greater than every previously
/// returned value; the counter saturates nowhere because callers must
/// stop one short of the width limit (stated as a precondition rather
/// than wrapping, which would forge identities).
pub struct KoidAllocator {
    next: KoID,
}

impl KoidAllocator {
    /// The identifier the next allocation will return.
    pub closed spec fn spec_next(self) -> KoID {
        self.next
    }

    /// A fresh allocator whose first identifier is zero.
    pub fn new() -> (a: KoidAllocator)
        ensures
            a.spec_next() == 0,
    {
        KoidAllocator { next: 0 }
    }

    /// Mints the next identifier.
    pub fn next_id(&mut self) -> (k: KoID)
        requires
            old(self).spec_next() < KoID::MAX,
        ensures
            k == old(self).spec_next(),
            final(self).spec_next() == old(self).spec_next() + 1,
    {
        let k = self.next;
        self.next = self.next + 1;
        k
    }
}

/// The capability interface every concrete kernel-resource kind
/// implements: stable identity, queried without side effects.
pub trait KernelObject {
    /// The assigned identifier, at the specification level.
    spec fn spec_id(&self) -> KoID;

    /// Returns the assigned identifier.
    fn id(&self) -> (k: KoID)
        ensures
            k == self.spec_id(),
    ;
}

/// A kernel object of any concrete kind, stored uniformly in the object
/// table. Recovering the concrete kind goes through an explicit,
/// type-tag-checked downcast that is total: it reports failure on a
/// mismatch instead of misbehaving.
pub enum KObject {
    /// One endpoint of a channel pair.
    Channel(Channel),
    /// A port (waiter) object; its semantics live above this core.
    Port(Port),
}

impl KObject {
    /// Downcast to a channel endpoint; fails exactly when this object is
    /// of another kind.
    pub fn as_channel(&self) -> (r: Option<&Channel>)
        ensures
            r is Some <==> self is Channel,
            r matches Some(c) ==> *self matches KObject::Channel(c0) && *c == c0,
    {
        match self {
            KObject::Channel(c) => Some(c),
            KObject::Port(_) => None,
        }
    }

    /// Downcast to a port; fails exactly when this object is of another
    /// kind.
    pub fn as_port(&self) -> (r: Option<&Port>)
        ensures
            r is Some <==> self is Port,
            r matches Some(p) ==> *self matches KObject::Port(p0) && *p == p0,
    {
        match self {
            KObject::Channel(_) => None,
            KObject::Port(p) => Some(p),
        }
    }
}

impl KernelObject for KObject {
    closed spec fn spec_id(&self) -> KoID {
        match *self {
            KObject::Channel(c) => c.spec_id(),
            KObject::Port(p) => p.spec_id(),
        }
    }

    fn id(&self) -> (k: KoID) {
        match self {
            KObject::Channel(c) => c.id(),
            KObject::Port(p) => p.id(),
        }
    }
}

/// One slot of the object table: the object itself plus the number of
/// live references (handles) to it. Handles embedded in in-flight
/// packets were counted when they were minted and stay counted while
/// the packet is queued.
pub(crate) struct Entry {
    pub(crate) handle_count: u64,
    pub(crate) object: KObject,
}

/// The kernel's object store: objects indexed by their KoID, each with
/// its live-reference count.
///
/// The table assigns identifiers densely from zero, so an object's KoID
/// is its index; dead objects keep their slot (with a count of zero and
/// an emptied queue), which is what makes identifiers unforgeable and
/// never reused.
pub struct ObjectTable {
    pub(crate) alloc: KoidAllocator,
    pub(crate) entries: Vec<Entry>,
}

impl ObjectTable {
    /// How many identifiers have ever been issued.
    pub closed spec fn object_count(self) -> nat {
        self.entries@.len()
    }

    /// Whether `k` has ever been issued.
    pub open spec fn is_koid(self, k: KoID) -> bool {
        (k as nat) < self.object_count()
    }

    /// The number of live references to object `k`.
    pub closed spec fn handle_count(self, k: KoID) -> u64
        recommends
            self.is_koid(k),
    {
        self.entries@[k as int].handle_count
    }

    /// Whether object `k` is live: issued, with at least one reference.
    pub open spec fn live(self, k: KoID) -> bool {
        self.is_koid(k) && self.handle_count(k) > 0
    }

    /// The object stored under `k`.
    pub closed spec fn object_at(self, k: KoID) -> KObject
        recommends
            self.is_koid(k),
    {
        self.entries@[k as int].object
    }

    /// Whether object `k` is a channel endpoint.
    pub open spec fn is_channel(self, k: KoID) -> bool {
        self.object_at(k) is Channel
    }

    /// The peer of channel endpoint `k`.
    pub closed spec fn peer(self, k: KoID) -> KoID
        recommends
            self.is_koid(k),
            self.is_channel(k),
    {
        match self.entries@[k as int].object {
            KObject::Channel(c) => c.peer,
            KObject::Port(_) => k,
        }
    }

    /// The receive queue of channel endpoint `k`, oldest packet first.
    pub closed spec fn queue(self, k: KoID) -> Seq<MessagePacket>
        recommends
            self.is_koid(k),
            self.is_channel(k),
    {
        match self.entries@[k as int].object {
            KObject::Channel(c) => c.queue@,
            KObject::Port(_) => Seq::empty(),
        }
    }

    /// Well-formedness of one slot: the object's identity matches its
    /// index; a channel's peer is another channel wired back to it; a
    /// dead channel's queue has been emptied.
    pub(crate) open spec fn entry_wf(self, i: int) -> bool {
        match self.entries@[i].object {
            KObject::Channel(c) => {
                &&& c.koid as int == i
                &&& (c.peer as int) < self.entries@.len()
                &&& (c.peer as int) != i
                &&& (match self.entries@[c.peer as int].object {
                    KObject::Channel(pc) => pc.peer as int == i,
                    KObject::Port(_) => false,
                })
                &&& self.entries@[i].handle_count == 0 ==> c.queue@.len() == 0
            },
            KObject::Port(p) => p.koid as int == i,
        }
    }

    /// Well-formedness of the whole table. Every operation of this core
    /// both assumes and preserves it.
    pub closed spec fn wf(self) -> bool {
        &&& self.entries@.len() <= KoID::MAX
        &&& self.alloc.spec_next() as nat == self.entries@.len()
        &&& forall|i: int| 0 <= i < self.entries@.len() ==> self.entry_wf(i)
    }

    /// An empty table; no identifier has been issued yet.
    pub fn new() -> (t: ObjectTable)
        ensures
            t.wf(),
            t.object_count() == 0,
    {
        ObjectTable { alloc: KoidAllocator::new(), entries: Vec::new() }
    }

    /// How many identifiers have ever been issued.
    pub fn count(&self) -> (n: u64)
        requires
            self.wf(),
        ensures
            n as nat == self.object_count(),
    {
        self.entries.len() as u64
    }

    /// The number of live references to object `koid`; zero for an
    /// identifier that was never issued.
    pub fn ref_count(&self, koid: KoID) -> (n: u64)
        ensures
            n == (if self.is_koid(koid) {
                self.handle_count(koid)
            } else {
                0u64
            }),
    {
        let len = self.entries.len();
        if koid < len as u64 {
            let idx = koid as usize;
            self.entries[idx].handle_count
        } else {
            0
        }
    }

    /// Resolves a KoID to the object it names, if that object is live.
    pub fn get(&self, koid: KoID) -> (r: Option<&KObject>)
        ensures
            r is Some <==> self.live(koid),
            r matches Some(o) ==> *o == self.object_at(koid),
    {
        let len = self.entries.len();
        if koid < len as u64 {
            let idx = koid as usize;
            let e = &self.entries[idx];
            if e.handle_count > 0 {
                Some(&e.object)
            } else {
                None
            }
        } else {
            None
        }
    }
}

/// Both tables hold object `k` in the same state: same reference count,
/// same kind, and for channels the same peer and queued packets.
pub open spec fn same_object(t0: ObjectTable, t1: ObjectTable, k: KoID) -> bool {
    &&& t1.is_koid(k)
    &&& t1.handle_count(k) == t0.handle_count(k)
    &&& t1.is_channel(k) == t0.is_channel(k)
    &&& t0.is_channel(k) ==> t1.peer(k) == t0.peer(k) && t1.queue(k) == t0.queue(k)
}

/// Exactly what closing a handle does: on a live object the reference
/// count drops by one — the object dies, and a dead channel's queue is
/// discarded, when this was the last reference — and nothing else
/// changes; on anything else the table is untouched and the caller gets
/// `BadHandle`.
pub open spec fn close_post(
    t0: ObjectTable,
    t1: ObjectTable,
    h: Handle,
    r: Result<(), ZxError>,
) -> bool {
    let k = h.spec_id();
    match r {
        Ok(()) => {
            &&& t0.live(k)
            &&& t1.object_count() == t0.object_count()
            &&& t1.handle_count(k) == t0.handle_count(k) - 1
            &&& t1.is_channel(k) == t0.is_channel(k)
            &&& t0.is_channel(k) ==> t1.peer(k) == t0.peer(k)
            &&& t0.handle_count(k) > 1 ==> t1.queue(k) == t0.queue(k)
            &&& t0.handle_count(k) == 1 ==> !t1.live(k) && t1.queue(k)
                == Seq::<MessagePacket>::empty()
            &&& forall|j: KoID| t0.is_koid(j) && j != k ==> same_object(t0, t1, j)
        },
        Err(e) => {
            &&& !t0.live(k)
            &&& e == ZxError::BadHandle
            &&& t1 == t0
        },
    }
}

/// A channel endpoint's peer, under well-formedness, is another live
/// slot of the table: a channel itself, distinct from the endpoint, and
/// wired back to it.
pub proof fn lemma_wf_peer_involution(t: ObjectTable, k: KoID)
    requires
        t.wf(),
        t.is_koid(k),
        t.is_channel(k),
    ensures
        t.is_koid(t.peer(k)),
        t.is_channel(t.peer(k)),
        t.peer(t.peer(k)) == k,
        t.peer(k) != k,
{
    assert(t.entry_wf(k as int));
    assert(t.entry_wf(t.peer(k) as int));
}

impl ObjectTable {
    /// Allocates two fresh identifiers and installs the cross-wired
    /// endpoint pair; each endpoint starts with one reference, held by
    /// the returned handle.
    pub(crate) fn create_channel_pair(&mut self) -> (r: (Handle, Handle))
        requires
            old(self).wf(),
            old(self).object_count() + 2 <= KoID::MAX,
        ensures
            final(self).wf(),
            crate::channel::channel_create_post(*old(self), *final(self), r.0, r.1),
    {
        let k0 = self.alloc.next_id();
        let k1 = self.alloc.next_id();
        let c0 = Channel { koid: k0, peer: k1, queue: Vec::new() };
        let c1 = Channel { koid: k1, peer: k0, queue: Vec::new() };
        self.entries.push(Entry { handle_count: 1, object: KObject::Channel(c0) });
        self.entries.push(Entry { handle_count: 1, object: KObject::Channel(c1) });
        let h0 = Handle::new(k0, Rights::channel_default());
        let h1 = Handle::new(k1, Rights::channel_default());
        proof {
            let len0 = old(self).entries@.len() as int;
            assert(k0 as int == len0 && k1 as int == len0 + 1);
            assert(self.entries@.len() == len0 + 2);
            assert(forall|j: int|
                0 <= j < len0 ==> self.entries@[j] == old(self).entries@[j]);
            assert(self.entries@[len0].object matches KObject::Channel(c) && c.koid == k0
                && c.peer == k1 && c.queue@.len() == 0);
            assert(self.entries@[len0 + 1].object matches KObject::Channel(c) && c.koid == k1
                && c.peer == k0 && c.queue@.len() == 0);
            assert(self.entry_wf(len0));
            assert(self.entry_wf(len0 + 1));
            assert forall|i: int| 0 <= i < self.entries@.len() implies self.entry_wf(i) by {
                if i < len0 {
                    assert(old(self).entry_wf(i));
                }
            }
            assert(forall|j: KoID|
                old(self).is_koid(j) ==> same_object(*old(self), *self, j));
        }
        (h0, h1)
    }

    /// Appends `packet` to the peer's receive queue, preserving arrival
    /// order. Refused — and the table left untouched — when `h` does not
    /// name a live channel (`BadHandle`), lacks the write right
    /// (`AccessDenied`), or the peer has no live reference left
    /// (`PeerClosed`): a packet nothing could ever drain is rejected
    /// rather than buffered forever. A refused write consumes the
    /// packet; references embedded in it are forfeited, as when a dead
    /// channel's queue is discarded.
    pub fn write(&mut self, h: &Handle, packet: MessagePacket) -> (r: Result<(), ZxError>)
        requires
            old(self).wf(),
        ensures
            final(self).wf(),
            crate::channel::write_post(*old(self), *final(self), *h, packet, r),
    {
        let k = h.id();
        let len = self.entries.len();
        if !(k < len as u64) {
            return Err(ZxError::BadHandle);
        }
        let idx = k as usize;
        if self.entries[idx].handle_count == 0 {
            return Err(ZxError::BadHandle);
        }
        let peer_koid = match &self.entries[idx].object {
            KObject::Channel(ch) => ch.peer,
            KObject::Port(_) => {
                return Err(ZxError::BadHandle);
            },
        };
        if !h.rights().contains(crate::rights::RIGHT_WRITE) {
            return Err(ZxError::AccessDenied);
        }
        proof {
            assert(self.entry_wf(k as int));
            assert((peer_koid as int) < self.entries@.len());
            assert(self.entries@[peer_koid as int].object is Channel);
            assert(peer_koid != k);
        }
        let pidx = peer_koid as usize;
        if self.entries[pidx].handle_count == 0 {
            return Err(ZxError::PeerClosed);
        }
        match &mut self.entries[pidx].object {
            KObject::Channel(ch) => {
                ch.queue.push(packet);
            },
            KObject::Port(_) => {
                return vstd::pervasive::unreached();
            },
        }
        proof {
            assert(self.entries@.len() == old(self).entries@.len());
            assert(forall|j: int|
                0 <= j < self.entries@.len() && j != peer_koid as int ==> self.entries@[j]
                    == old(self).entries@[j]);
            assert(self.entries@[peer_koid as int].handle_count == old(
                self,
            ).entries@[peer_koid as int].handle_count);
            assert(old(self).entries@[peer_koid as int].object matches KObject::Channel(pc0)
                && self.entries@[peer_koid as int].object matches KObject::Channel(pc1)
                && pc1.koid == pc0.koid && pc1.peer == pc0.peer && pc1.queue@ == pc0.queue@.push(
                packet,
            ));
            assert forall|i: int| 0 <= i < self.entries@.len() implies self.entry_wf(i) by {
                assert(old(self).entry_wf(i));
            }
            assert(forall|j: KoID|
                old(self).is_koid(j) && j != peer_koid ==> same_object(*old(self), *self, j));
        }
        Ok(())
    }

    /// Removes and returns the oldest unread packet from this endpoint's
    /// receive queue. Never blocks: an empty queue reports `ShouldWait`
    /// while the peer lives, and `PeerClosed` once it is gone and the
    /// queue is drained, so callers can tell "temporarily empty" from
    /// "will never receive more". Packets queued before the peer closed
    /// are still delivered.
    pub fn read(&mut self, h: &Handle) -> (r: Result<MessagePacket, ZxError>)
        requires
            old(self).wf(),
        ensures
            final(self).wf(),
            crate::channel::read_post(*old(self), *final(self), *h, r),
    {
        let k = h.id();
        let len = self.entries.len();
        if !(k < len as u64) {
            return Err(ZxError::BadHandle);
        }
        let idx = k as usize;
        if self.entries[idx].handle_count == 0 {
            return Err(ZxError::BadHandle);
        }
        let (queue_len, peer_koid) = match &self.entries[idx].object {
            KObject::Channel(ch) => (ch.queue.len(), ch.peer),
            KObject::Port(_) => {
                return Err(ZxError::BadHandle);
            },
        };
        if !h.rights().contains(crate::rights::RIGHT_READ) {
            return Err(ZxError::AccessDenied);
        }
        proof {
            assert(self.entry_wf(k as int));
            assert((peer_koid as int) < self.entries@.len());
        }
        if queue_len == 0 {
            let pidx = peer_koid as usize;
            if self.entries[pidx].handle_count > 0 {
                return Err(ZxError::ShouldWait);
            } else {
                return Err(ZxError::PeerClosed);
            }
        }
        let packet = match &mut self.entries[idx].object {
            KObject::Channel(ch) => ch.queue.remove(0),
            KObject::Port(_) => vstd::pervasive::unreached(),
        };
        proof {
            assert(self.entries@.len() == old(self).entries@.len());
            assert(forall|j: int|
                0 <= j < self.entries@.len() && j != k as int ==> self.entries@[j] == old(
                    self,
                ).entries@[j]);
            assert(self.entries@[k as int].handle_count == old(
                self,
            ).entries@[k as int].handle_count);
            assert(old(self).entries@[k as int].object matches KObject::Channel(c0)
                && self.entries@[k as int].object matches KObject::Channel(c1) && c1.koid
                == c0.koid && c1.peer == c0.peer && c1.queue@ == c0.queue@.remove(0) && packet
                == c0.queue@[0]);
            assert(old(self).queue(k).drop_first() =~= old(self).queue(k).remove(0));
            assert forall|i: int| 0 <= i < self.entries@.len() implies self.entry_wf(i) by {
                assert(old(self).entry_wf(i));
            }
            assert(forall|j: KoID|
                old(self).is_koid(j) && j != k ==> same_object(*old(self), *self, j));
        }
        Ok(packet)
    }

    /// Allocates a fresh identifier and installs a port under it, with
    /// one reference held by the returned handle.
    pub(crate) fn insert_port(&mut self) -> (h: Handle)
        requires
            old(self).wf(),
            old(self).object_count() + 1 <= KoID::MAX,
        ensures
            final(self).wf(),
            crate::port::port_create_post(*old(self), *final(self), h),
    {
        let k = self.alloc.next_id();
        self.entries.push(Entry { handle_count: 1, object: KObject::Port(Port { koid: k }) });
        proof {
            let len0 = old(self).entries@.len() as int;
            assert(k as int == len0);
            assert(forall|j: int|
                0 <= j < len0 ==> self.entries@[j] == old(self).entries@[j]);
            assert forall|i: int| 0 <= i < self.entries@.len() implies self.entry_wf(i) by {
                if i < len0 {
                    assert(old(self).entry_wf(i));
                }
            }
            assert(forall|j: KoID|
                old(self).is_koid(j) ==> same_object(*old(self), *self, j));
        }
        Handle::new(k, Rights::port_default())
    }

    /// Registers one more reference to the object `h` names and hands
    /// back a handle carrying exactly `requested`; refused when the
    /// object is dead, the duplicate right is missing, or `requested`
    /// exceeds the source handle's rights.
    pub(crate) fn dup_handle(&mut self, h: &Handle, requested: Rights) -> (r: Result<
        Handle,
        ZxError,
    >)
        requires
            old(self).wf(),
            old(self).live(h.spec_id()) ==> old(self).handle_count(h.spec_id()) < u64::MAX,
        ensures
            final(self).wf(),
            crate::handle::duplicate_post(*old(self), *final(self), *h, requested, r),
    {
        let k = h.id();
        let len = self.entries.len();
        if !(k < len as u64) {
            return Err(ZxError::BadHandle);
        }
        let idx = k as usize;
        let c = self.entries[idx].handle_count;
        if c == 0 {
            return Err(ZxError::BadHandle);
        }
        let source_rights = h.rights();
        if !source_rights.contains(crate::rights::RIGHT_DUPLICATE) {
            return Err(ZxError::AccessDenied);
        }
        if !requested.subset_of(&source_rights) {
            return Err(ZxError::InvalidArgs);
        }
        let granted = requested.intersect(&source_rights);
        proof {
            crate::rights::lemma_subset_intersect_exact(requested, source_rights);
            assert(granted == requested);
        }
        let e = &mut self.entries[idx];
        e.handle_count = c + 1;
        proof {
            assert(self.entries@.len() == old(self).entries@.len());
            assert(forall|j: int|
                0 <= j < self.entries@.len() && j != k as int ==> self.entries@[j] == old(
                    self,
                ).entries@[j]);
            assert(self.entries@[k as int].handle_count == c + 1);
            assert(self.entries@[k as int].object == old(self).entries@[k as int].object);
            assert forall|i: int| 0 <= i < self.entries@.len() implies self.entry_wf(i) by {
                assert(old(self).entry_wf(i));
            }
            assert(forall|j: KoID|
                old(self).is_koid(j) && j != k ==> same_object(*old(self), *self, j));
        }
        Ok(Handle::new(k, granted))
    }

    /// Relinquishes one reference to the object `h` names. The object
    /// survives while other references remain; when the last one goes,
    /// the object dies and a channel's undelivered packets are discarded
    /// (references embedded in them are forfeited — the accepted
    /// retention case for capability cycles).
    pub fn close(&mut self, h: Handle) -> (r: Result<(), ZxError>)
        requires
            old(self).wf(),
        ensures
            final(self).wf(),
            close_post(*old(self), *final(self), h, r),
    {
        let k = h.id();
        let len = self.entries.len();
        if !(k < len as u64) {
            return Err(ZxError::BadHandle);
        }
        let idx = k as usize;
        let c = self.entries[idx].handle_count;
        if c == 0 {
            return Err(ZxError::BadHandle);
        }
        let e = &mut self.entries[idx];
        e.handle_count = c - 1;
        if c == 1 {
            let o = &mut self.entries[idx].object;
            match o {
                KObject::Channel(ch) => {
                    ch.queue.clear();
                },
                KObject::Port(_) => {},
            }
        }
        proof {
            assert(idx as int == k as int);
            assert(self.entries@.len() == old(self).entries@.len());
            assert(forall|j: int|
                0 <= j < self.entries@.len() && j != k as int ==> self.entries@[j] == old(
                    self,
                ).entries@[j]);
            assert(self.entries@[k as int].handle_count == c - 1);
            assert(match old(self).entries@[k as int].object {
                KObject::Channel(c0) => self.entries@[k as int].object matches KObject::Channel(c1)
                    && c1.koid == c0.koid && c1.peer == c0.peer && (if c == 1 {
                    c1.queue@.len() == 0
                } else {
                    c1.queue@ == c0.queue@
                }),
                KObject::Port(p0) => self.entries@[k as int].object == KObject::Port(p0),
            });
            assert forall|i: int| 0 <= i < self.entries@.len() implies self.entry_wf(i) by {
                assert(old(self).entry_wf(i));
                if i != k as int {
                    assert(old(self).entry_wf(i));
                }
            }
            assert(forall|j: KoID|
                old(self).is_koid(j) && j != k ==> same_object(*old(self), *self, j));
        }
        Ok(())
    }
}

} // verus!
