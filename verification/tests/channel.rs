use zircon_object::channel::Channel;
use zircon_object::error::ZxError;
use zircon_object::handle::Handle;
use zircon_object::object::{KernelObject, ObjectTable};
use zircon_object::packet::MessagePacket;
use zircon_object::rights::{Rights, RIGHT_READ, RIGHT_WRITE};

fn packet(data: &[u8]) -> MessagePacket {
    MessagePacket::new(data.to_vec(), Vec::new())
}

#[test]
fn is_work() {
    let mut table = ObjectTable::new();
    let (handle0, handle1) = Channel::create(&mut table);
    let ch0 = table.get(handle0.id()).unwrap();
    assert_eq!(0u64, ch0.id());
    let ch1 = table.get(handle1.id()).unwrap();
    assert_eq!(1u64, ch1.id());
}

#[test]
fn ping_round_trip() {
    let mut table = ObjectTable::new();
    let (h0, h1) = Channel::create(&mut table);
    assert_eq!(table.write(&h0, packet(b"ping")), Ok(()));
    let got = table.read(&h1).unwrap();
    assert_eq!(got.data, b"ping".to_vec());
    assert!(got.handles.is_empty());
    assert_eq!(table.read(&h1).unwrap_err(), ZxError::ShouldWait);
}

#[test]
fn writes_cross_over_never_loop_back() {
    let mut table = ObjectTable::new();
    let (h0, h1) = Channel::create(&mut table);
    assert_eq!(table.write(&h0, packet(b"to-1")), Ok(()));
    // The writer's own receive queue stays empty.
    assert_eq!(table.read(&h0).unwrap_err(), ZxError::ShouldWait);
    assert_eq!(table.read(&h1).unwrap().data, b"to-1".to_vec());
    // And the same holds in the other direction.
    assert_eq!(table.write(&h1, packet(b"to-0")), Ok(()));
    assert_eq!(table.read(&h1).unwrap_err(), ZxError::ShouldWait);
    assert_eq!(table.read(&h0).unwrap().data, b"to-0".to_vec());
}

#[test]
fn fifo_order_is_kept() {
    let mut table = ObjectTable::new();
    let (h0, h1) = Channel::create(&mut table);
    assert_eq!(table.write(&h0, packet(b"first")), Ok(()));
    assert_eq!(table.write(&h0, packet(b"second")), Ok(()));
    assert_eq!(table.write(&h0, packet(b"third")), Ok(()));
    assert_eq!(table.read(&h1).unwrap().data, b"first".to_vec());
    assert_eq!(table.read(&h1).unwrap().data, b"second".to_vec());
    assert_eq!(table.read(&h1).unwrap().data, b"third".to_vec());
    assert_eq!(table.read(&h1).unwrap_err(), ZxError::ShouldWait);
}

#[test]
fn peer_closed_is_permanent() {
    let mut table = ObjectTable::new();
    let (h0, h1) = Channel::create(&mut table);
    assert_eq!(table.close(h1), Ok(()));
    // The peer is gone: the write is rejected, not buffered forever.
    assert_eq!(table.write(&h0, packet(b"lost")), Err(ZxError::PeerClosed));
    // And an empty queue reports permanent unavailability, not a
    // transient empty state.
    assert_eq!(table.read(&h0).unwrap_err(), ZxError::PeerClosed);
}

#[test]
fn queued_packets_survive_peer_closure() {
    let mut table = ObjectTable::new();
    let (h0, h1) = Channel::create(&mut table);
    assert_eq!(table.write(&h0, packet(b"a")), Ok(()));
    assert_eq!(table.write(&h0, packet(b"b")), Ok(()));
    assert_eq!(table.close(h0), Ok(()));
    assert_eq!(table.read(&h1).unwrap().data, b"a".to_vec());
    assert_eq!(table.read(&h1).unwrap().data, b"b".to_vec());
    assert_eq!(table.read(&h1).unwrap_err(), ZxError::PeerClosed);
}

#[test]
fn handle_transfer_bootstraps_capabilities() {
    let mut table = ObjectTable::new();
    let (a0, a1) = Channel::create(&mut table);
    let (b0, b1) = Channel::create(&mut table);
    let b1_koid = b1.id();
    // Send B's endpoint 1 through channel A.
    let p = MessagePacket::new(b"take-this".to_vec(), vec![b1]);
    assert_eq!(table.write(&a0, p), Ok(()));
    let got = table.read(&a1).unwrap();
    assert_eq!(got.data, b"take-this".to_vec());
    assert_eq!(got.handles.len(), 1);
    let recovered = got.handles.into_iter().next().unwrap();
    // Same underlying object, same identity, still one reference.
    assert_eq!(recovered.id(), b1_koid);
    assert_eq!(table.ref_count(b1_koid), 1);
    // The recovered handle behaves exactly like B's endpoint 1 did.
    assert_eq!(table.write(&recovered, packet(b"via-recovered")), Ok(()));
    assert_eq!(table.read(&b0).unwrap().data, b"via-recovered".to_vec());
    assert_eq!(table.write(&b0, packet(b"back")), Ok(()));
    assert_eq!(table.read(&recovered).unwrap().data, b"back".to_vec());
    // A's endpoints still work independently.
    assert_eq!(table.write(&a1, packet(b"ack")), Ok(()));
    assert_eq!(table.read(&a0).unwrap().data, b"ack".to_vec());
}

#[test]
fn write_and_read_respect_rights() {
    let mut table = ObjectTable::new();
    let (h0, h1) = Channel::create(&mut table);
    let read_only = h0.duplicate(&mut table, Rights::new(RIGHT_READ)).unwrap();
    let write_only = h0.duplicate(&mut table, Rights::new(RIGHT_WRITE)).unwrap();
    assert_eq!(table.write(&read_only, packet(b"nope")), Err(ZxError::AccessDenied));
    assert_eq!(table.read(&read_only).unwrap_err(), ZxError::ShouldWait);
    assert_eq!(table.read(&write_only).unwrap_err(), ZxError::AccessDenied);
    assert_eq!(table.write(&write_only, packet(b"yes")), Ok(()));
    assert_eq!(table.read(&h1).unwrap().data, b"yes".to_vec());
}

#[test]
fn stale_handle_after_close_is_bad() {
    let mut table = ObjectTable::new();
    let (h0, h1) = Channel::create(&mut table);
    let stale = Handle::new(h0.id(), h0.rights());
    assert_eq!(table.close(h0), Ok(()));
    assert_eq!(table.write(&stale, packet(b"x")), Err(ZxError::BadHandle));
    assert_eq!(table.read(&stale).unwrap_err(), ZxError::BadHandle);
    assert_eq!(table.close(stale), Err(ZxError::BadHandle));
    drop(h1);
}
