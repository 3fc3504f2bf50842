//! Channel: a two-endpoint, queue-backed kernel object transporting
//! MessagePackets between peers.
//!
//! A channel endpoint owns the queue it reads from; writes go to the
//! peer's queue. The two endpoints are created as a connected pair and
//! may be closed independently afterwards; once one side has no live
//! reference left, the survivor's writes are refused as `PeerClosed`.

use vstd::prelude::*;

use crate::error::ZxError;
use crate::handle::Handle;
use crate::object::{same_object, KernelObject, KoID, ObjectTable};
use crate::packet::MessagePacket;
use crate::rights::{Rights, RIGHT_READ, RIGHT_WRITE};

verus! {

/// One endpoint of a channel pair.
///
/// `queue` is this endpoint's receive queue: the peer's writes land here
/// and this endpoint's reads drain it in FIFO order.
pub struct Channel {
    pub(crate) koid: KoID,
    pub(crate) peer: KoID,
    pub(crate) queue: Vec<MessagePacket>,
}

impl Channel {
    /// The identifier of this endpoint's peer.
    pub closed spec fn spec_peer(self) -> KoID {
        self.peer
    }

    /// The packets queued for this endpoint to read, oldest first.
    pub closed spec fn spec_queue(self) -> Seq<MessagePacket> {
        self.queue@
    }

    /// Builds an endpoint record with identity `koid`, connected to the
    /// endpoint `peer`, with an empty receive queue.
    pub fn new(koid: KoID, peer: KoID) -> (c: Channel)
        ensures
            c.spec_id() == koid,
            c.spec_peer() == peer,
            c.spec_queue() == Seq::<MessagePacket>::empty(),
    {
        Channel { koid, peer, queue: Vec::new() }
    }
}

/// Exactly what creating a channel pair does: two fresh identifiers,
/// the next two the table will ever issue; two live channel endpoints
/// wired to each other, queues empty; one handle on each, carrying the
/// default channel rights; every object that existed before untouched.
pub open spec fn channel_create_post(
    t0: ObjectTable,
    t1: ObjectTable,
    h0: Handle,
    h1: Handle,
) -> bool {
    let k0 = t0.object_count() as KoID;
    let k1 = (t0.object_count() + 1) as KoID;
    &&& t1.object_count() == t0.object_count() + 2
    &&& h0.spec_id() == k0
    &&& h1.spec_id() == k1
    &&& h0.spec_rights() == Rights::spec_channel_default()
    &&& h1.spec_rights() == Rights::spec_channel_default()
    &&& t1.is_channel(k0) && t1.is_channel(k1)
    &&& t1.handle_count(k0) == 1 && t1.handle_count(k1) == 1
    &&& t1.peer(k0) == k1 && t1.peer(k1) == k0
    &&& t1.queue(k0) == Seq::<MessagePacket>::empty()
    &&& t1.queue(k1) == Seq::<MessagePacket>::empty()
    &&& forall|j: KoID| t0.is_koid(j) ==> same_object(t0, t1, j)
}

/// A write through `h` goes through: the handle names a live channel,
/// carries the write right, and the peer endpoint still has a live
/// reference.
pub open spec fn write_allowed(t: ObjectTable, h: Handle) -> bool {
    &&& t.live(h.spec_id())
    &&& t.is_channel(h.spec_id())
    &&& h.spec_rights().spec_contains(RIGHT_WRITE)
    &&& t.live(t.peer(h.spec_id()))
}

/// Which error a refused write reports, checked in this order: a dead
/// or non-channel object, then a missing write right, then a dead peer.
pub open spec fn write_err(t: ObjectTable, h: Handle) -> ZxError {
    if !(t.live(h.spec_id()) && t.is_channel(h.spec_id())) {
        ZxError::BadHandle
    } else if !h.spec_rights().spec_contains(RIGHT_WRITE) {
        ZxError::AccessDenied
    } else {
        ZxError::PeerClosed
    }
}

/// Exactly what a channel write does: on success the packet is appended
/// to the peer's receive queue — never the writer's own — and nothing
/// else in the table changes; a refused write reports the error above
/// and leaves the table untouched.
pub open spec fn write_post(
    t0: ObjectTable,
    t1: ObjectTable,
    h: Handle,
    p: MessagePacket,
    r: Result<(), ZxError>,
) -> bool {
    let k = h.spec_id();
    let pk = t0.peer(k);
    match r {
        Ok(()) => {
            &&& write_allowed(t0, h)
            &&& t1.object_count() == t0.object_count()
            &&& t1.queue(pk) == t0.queue(pk).push(p)
            &&& t1.handle_count(pk) == t0.handle_count(pk)
            &&& t1.is_channel(pk)
            &&& t1.peer(pk) == k
            &&& forall|j: KoID| t0.is_koid(j) && j != pk ==> same_object(t0, t1, j)
        },
        Err(e) => {
            &&& !write_allowed(t0, h)
            &&& e == write_err(t0, h)
            &&& t1 == t0
        },
    }
}

/// A read through `h` returns a packet: the handle names a live
/// channel, carries the read right, and a packet is queued. Whether the
/// peer is alive does not matter: packets sent before the peer closed
/// are still delivered.
pub open spec fn read_allowed(t: ObjectTable, h: Handle) -> bool {
    &&& t.live(h.spec_id())
    &&& t.is_channel(h.spec_id())
    &&& h.spec_rights().spec_contains(RIGHT_READ)
    &&& t.queue(h.spec_id()).len() > 0
}

/// Which error a packetless read reports: a dead or non-channel object,
/// then a missing read right, then — on an empty queue — `ShouldWait`
/// while the peer lives (retry may succeed) but `PeerClosed` once it is
/// gone (no packet can ever arrive again).
pub open spec fn read_err(t: ObjectTable, h: Handle) -> ZxError {
    if !(t.live(h.spec_id()) && t.is_channel(h.spec_id())) {
        ZxError::BadHandle
    } else if !h.spec_rights().spec_contains(RIGHT_READ) {
        ZxError::AccessDenied
    } else if t.live(t.peer(h.spec_id())) {
        ZxError::ShouldWait
    } else {
        ZxError::PeerClosed
    }
}

/// Exactly what a channel read does: on success the oldest queued
/// packet is removed and returned and nothing else in the table
/// changes; otherwise the error above is reported and the table is left
/// untouched.
pub open spec fn read_post(
    t0: ObjectTable,
    t1: ObjectTable,
    h: Handle,
    r: Result<MessagePacket, ZxError>,
) -> bool {
    let k = h.spec_id();
    match r {
        Ok(p) => {
            &&& read_allowed(t0, h)
            &&& p == t0.queue(k)[0]
            &&& t1.object_count() == t0.object_count()
            &&& t1.queue(k) == t0.queue(k).drop_first()
            &&& t1.handle_count(k) == t0.handle_count(k)
            &&& t1.is_channel(k)
            &&& t1.peer(k) == t0.peer(k)
            &&& forall|j: KoID| t0.is_koid(j) && j != k ==> same_object(t0, t1, j)
        },
        Err(e) => {
            &&& !read_allowed(t0, h)
            &&& e == read_err(t0, h)
            &&& t1 == t0
        },
    }
}

impl Channel {
    /// Allocates two connected endpoints sharing a cross-wired pair of
    /// queues, assigns each a fresh KoID, and wraps each in a handle
    /// carrying the default channel rights. The pair is returned already
    /// connected; there is no separate connect step.
    pub fn create(table: &mut ObjectTable) -> (r: (Handle, Handle))
        requires
            old(table).wf(),
            old(table).object_count() + 2 <= KoID::MAX,
        ensures
            final(table).wf(),
            channel_create_post(*old(table), *final(table), r.0, r.1),
    {
        table.create_channel_pair()
    }
}

impl KernelObject for Channel {
    closed spec fn spec_id(&self) -> KoID {
        self.koid
    }

    fn id(&self) -> (k: KoID) {
        self.koid
    }
}

/// Global KoID uniqueness: the two endpoints of a fresh channel pair
/// carry identifiers that differ from each other and from every
/// identifier the table had ever issued before — across any sequence
/// of creations, since each starts from the table the previous one
/// left.
pub proof fn lemma_create_koids_globally_unique(
    t0: ObjectTable,
    t1: ObjectTable,
    h0: Handle,
    h1: Handle,
)
    requires
        t0.object_count() + 2 <= KoID::MAX,
        channel_create_post(t0, t1, h0, h1),
    ensures
        h0.spec_id() != h1.spec_id(),
        forall|k: KoID| t0.is_koid(k) ==> k != h0.spec_id() && k != h1.spec_id(),
        t1.is_koid(h0.spec_id()) && t1.is_koid(h1.spec_id()),
{
}

/// Cross-wiring and capability transfer: a packet written on one
/// endpoint is the next packet read on its peer — it never lands on
/// the writer's own queue — and the read hands it over intact, handles
/// included: the receiver recovers exactly the capabilities (same
/// identifiers, same rights) that the sender gave up when the packet
/// moved out of its hands.
pub proof fn lemma_transfer_round_trip(
    t0: ObjectTable,
    t1: ObjectTable,
    t2: ObjectTable,
    hw: Handle,
    hr: Handle,
    p: MessagePacket,
    r: Result<MessagePacket, ZxError>,
)
    requires
        t0.wf(),
        hr.spec_id() == t0.peer(hw.spec_id()),
        hr.spec_rights().spec_contains(RIGHT_READ),
        t0.queue(hr.spec_id()).len() == 0,
        write_post(t0, t1, hw, p, Ok(())),
        read_post(t1, t2, hr, r),
    ensures
        r == Ok::<MessagePacket, ZxError>(p),
        t1.queue(hw.spec_id()) == t0.queue(hw.spec_id()),
        t2.queue(hr.spec_id()) == Seq::<MessagePacket>::empty(),
        r matches Ok(q) ==> q.handles == p.handles && q.data == p.data,
{
    let k = hw.spec_id();
    let pk = hr.spec_id();
    crate::object::lemma_wf_peer_involution(t0, k);
    assert(t1.queue(pk) =~= seq![p]);
    assert(read_allowed(t1, hr));
    assert(t1.queue(pk)[0] == p);
    assert(t2.queue(pk) =~= Seq::<MessagePacket>::empty());
}

/// A run of successful writes of the packets `ps`, oldest first, all
/// through the handle `h`, with nothing else interleaved: `states`
/// records the table before and after each write, and consecutive
/// states are related by `write_post` from a well-formed state,
/// exactly as the verified `write` guarantees.
pub open spec fn writes_chain(states: Seq<ObjectTable>, h: Handle, ps: Seq<MessagePacket>) -> bool {
    &&& states.len() == ps.len() + 1
    &&& forall|i: int|
        0 <= i < ps.len() ==> (#[trigger] states[i]).wf() && write_post(
            states[i],
            states[i + 1],
            h,
            ps[i],
            Ok(()),
        )
}

/// A run of successful reads through the handle `h` returning the
/// packets `qs`, oldest first, with nothing else interleaved:
/// consecutive states of `states` are related by `read_post`.
pub open spec fn reads_chain(states: Seq<ObjectTable>, h: Handle, qs: Seq<MessagePacket>) -> bool {
    &&& states.len() == qs.len() + 1
    &&& forall|i: int|
        0 <= i < qs.len() ==> read_post(#[trigger] states[i], states[i + 1], h, Ok(qs[i]))
}

/// A run of writes from one endpoint appends exactly those packets, in
/// order, to the peer's receive queue, and leaves the writing
/// endpoint's own object — its peer link and its own queue — as it
/// was.
pub proof fn lemma_fifo_writes(states: Seq<ObjectTable>, h: Handle, ps: Seq<MessagePacket>)
    requires
        writes_chain(states, h, ps),
    ensures
        states.last().queue(states[0].peer(h.spec_id())) =~= states[0].queue(
            states[0].peer(h.spec_id()),
        ) + ps,
        ps.len() > 0 ==> states.last().peer(h.spec_id()) == states[0].peer(h.spec_id())
            && states.last().is_channel(h.spec_id()) && states.last().live(h.spec_id())
            && states.last().queue(h.spec_id()) == states[0].queue(h.spec_id()),
    decreases ps.len(),
{
    let k = h.spec_id();
    let pk = states[0].peer(k);
    if ps.len() == 0 {
        assert(states.last() == states[0]);
        assert(states[0].queue(pk) + ps =~= states[0].queue(pk));
    } else {
        let n = ps.len() as int;
        let prev = states.drop_last();
        assert(forall|i: int| 0 <= i < n - 1 ==> #[trigger] prev[i] == states[i] && prev[i + 1]
            == states[i + 1]);
        lemma_fifo_writes(prev, h, ps.drop_last());
        let tm = states[n - 1];
        assert(prev.last() == tm && prev[0] == states[0]);
        assert(tm.wf() && write_post(tm, states[n], h, ps[n - 1], Ok(())));
        assert(tm.peer(k) == pk);
        crate::object::lemma_wf_peer_involution(tm, k);
        assert(same_object(tm, states[n], k));
        assert(states[n].queue(pk) =~= tm.queue(pk).push(ps[n - 1]));
        assert(ps.drop_last().push(ps[n - 1]) =~= ps);
        assert(states.last().queue(pk) =~= states[0].queue(pk) + ps);
    }
}

/// A run of reads drains the receive queue strictly from the front:
/// the packets returned are exactly the first packets the queue held,
/// in queue order, and what remains is the corresponding suffix.
pub proof fn lemma_fifo_reads(states: Seq<ObjectTable>, h: Handle, qs: Seq<MessagePacket>)
    requires
        reads_chain(states, h, qs),
    ensures
        qs.len() <= states[0].queue(h.spec_id()).len(),
        qs =~= states[0].queue(h.spec_id()).take(qs.len() as int),
        states.last().queue(h.spec_id()) =~= states[0].queue(h.spec_id()).skip(qs.len() as int),
    decreases qs.len(),
{
    let k = h.spec_id();
    if qs.len() > 0 {
        let n = qs.len() as int;
        let rest = states.drop_first();
        let tm = states[1];
        assert(read_post(states[0], tm, h, Ok(qs[0])));
        assert(forall|i: int| 0 <= i < n - 1 ==> #[trigger] rest[i] == states[i + 1] && rest[i
            + 1] == states[i + 2]);
        assert(forall|i: int| 0 <= i < n - 1 ==> #[trigger] qs.drop_first()[i] == qs[i + 1]);
        lemma_fifo_reads(rest, h, qs.drop_first());
        assert(rest[0] == tm && rest.last() == states.last());
        assert(tm.queue(k) == states[0].queue(k).drop_first());
        assert(qs[0] == states[0].queue(k)[0]);
        assert forall|i: int| 0 < i < n implies qs[i] == states[0].queue(k)[i] by {
            assert(qs.drop_first()[i - 1] == tm.queue(k).take(n - 1)[i - 1]);
            assert(tm.queue(k)[i - 1] == states[0].queue(k).drop_first()[i - 1]);
        }
        assert(qs =~= states[0].queue(k).take(n));
        assert forall|i: int|
            0 <= i < states.last().queue(k).len() implies states.last().queue(k)[i]
            == states[0].queue(k).skip(n)[i] by {
            assert(states.last().queue(k)[i] == tm.queue(k).skip(n - 1)[i]);
            assert(tm.queue(k)[i + n - 1] == states[0].queue(k).drop_first()[i + n - 1]);
        }
        assert(states.last().queue(k) =~= states[0].queue(k).skip(n));
    }
}

/// FIFO, end to end: write the packets `ps` from one endpoint into an
/// initially empty peer queue, with nothing interleaved, then read the
/// peer the same number of times; the reads return exactly `ps`, in
/// the order written.
pub proof fn lemma_channel_fifo(
    write_states: Seq<ObjectTable>,
    read_states: Seq<ObjectTable>,
    hw: Handle,
    hr: Handle,
    ps: Seq<MessagePacket>,
    qs: Seq<MessagePacket>,
)
    requires
        write_states.len() > 0,
        hr.spec_id() == write_states[0].peer(hw.spec_id()),
        write_states[0].queue(hr.spec_id()).len() == 0,
        writes_chain(write_states, hw, ps),
        reads_chain(read_states, hr, qs),
        read_states[0] == write_states.last(),
        qs.len() == ps.len(),
    ensures
        qs =~= ps,
{
    lemma_fifo_writes(write_states, hw, ps);
    lemma_fifo_reads(read_states, hr, qs);
    assert(write_states.last().queue(hr.spec_id()) =~= ps);
}

/// Peer closure: once the last reference to one endpoint is gone, the
/// surviving endpoint's writes are refused as `PeerClosed`, and a read
/// on its drained queue reports `PeerClosed` — permanent
/// unavailability — rather than the transient `ShouldWait`.
pub proof fn lemma_peer_closed(
    t0: ObjectTable,
    t1: ObjectTable,
    closed_h: Handle,
    k0: KoID,
)
    requires
        t0.wf(),
        t0.is_channel(closed_h.spec_id()),
        t0.handle_count(closed_h.spec_id()) == 1,
        crate::object::close_post(t0, t1, closed_h, Ok(())),
        k0 == t0.peer(closed_h.spec_id()),
        t0.live(k0),
    ensures
        !t1.live(closed_h.spec_id()),
        forall|h: Handle| h.spec_id() == k0 ==> !write_allowed(t1, h),
        forall|h: Handle|
            h.spec_id() == k0 && h.spec_rights().spec_contains(RIGHT_WRITE) ==> write_err(t1, h)
                == ZxError::PeerClosed,
        forall|h: Handle|
            h.spec_id() == k0 && h.spec_rights().spec_contains(RIGHT_READ) && t1.queue(k0).len()
                == 0 ==> !read_allowed(t1, h) && read_err(t1, h) == ZxError::PeerClosed,
{
    let k1 = closed_h.spec_id();
    crate::object::lemma_wf_peer_involution(t0, k1);
    assert(same_object(t0, t1, k0));
    assert(t1.live(k0) && t1.is_channel(k0) && t1.peer(k0) == k1);
    assert(!t1.live(k1));
}

} // verus!
