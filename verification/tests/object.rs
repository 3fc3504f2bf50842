use zircon_object::channel::Channel;
use zircon_object::error::ZxError;
use zircon_object::handle::Handle;
use zircon_object::object::{KernelObject, ObjectTable};
use zircon_object::packet::MessagePacket;
use zircon_object::port::Port;
use zircon_object::rights::{
    Rights, RIGHT_DUPLICATE, RIGHT_READ, RIGHT_TRANSFER, RIGHT_WRITE,
};

#[test]
fn koids_are_globally_unique() {
    let mut table = ObjectTable::new();
    let (a0, a1) = Channel::create(&mut table);
    let (b0, b1) = Channel::create(&mut table);
    let port = Port::create(&mut table);
    let ids = [a0.id(), a1.id(), b0.id(), b1.id(), port.id()];
    assert_eq!(ids, [0, 1, 2, 3, 4]);
    for i in 0..ids.len() {
        for j in 0..ids.len() {
            if i != j {
                assert_ne!(ids[i], ids[j]);
            }
        }
    }
    assert_eq!(table.count(), 5);
}

#[test]
fn downcast_is_tag_checked_and_total() {
    let mut table = ObjectTable::new();
    let (c0, _c1) = Channel::create(&mut table);
    let ph = Port::create(&mut table);
    let chan_obj = table.get(c0.id()).unwrap();
    assert!(chan_obj.as_channel().is_some());
    assert!(chan_obj.as_port().is_none());
    assert_eq!(chan_obj.as_channel().unwrap().id(), c0.id());
    let port_obj = table.get(ph.id()).unwrap();
    assert!(port_obj.as_port().is_some());
    assert!(port_obj.as_channel().is_none());
    // A never-issued identifier resolves to nothing.
    assert!(table.get(99).is_none());
}

#[test]
fn channel_operations_on_a_port_fail_as_bad_handle() {
    let mut table = ObjectTable::new();
    let ph = Port::create(&mut table);
    let p = MessagePacket::new(b"x".to_vec(), Vec::new());
    assert_eq!(table.write(&ph, p), Err(ZxError::BadHandle));
    assert_eq!(table.read(&ph).unwrap_err(), ZxError::BadHandle);
}

#[test]
fn duplicate_grants_exactly_the_requested_subset() {
    let mut table = ObjectTable::new();
    let (h0, _h1) = Channel::create(&mut table);
    let requested = Rights::new(RIGHT_READ | RIGHT_WRITE);
    let dup = h0.duplicate(&mut table, requested).unwrap();
    assert_eq!(dup.id(), h0.id());
    assert_eq!(dup.rights(), requested);
    assert_eq!(table.ref_count(h0.id()), 2);
}

#[test]
fn duplicate_never_escalates_rights() {
    let mut table = ObjectTable::new();
    let (h0, _h1) = Channel::create(&mut table);
    // 0x10 is a right the source does not hold.
    let too_much = Rights::new(RIGHT_READ | 0x10);
    assert_eq!(h0.duplicate(&mut table, too_much).unwrap_err(), ZxError::InvalidArgs);
    assert_eq!(table.ref_count(h0.id()), 1);
}

#[test]
fn duplicate_requires_the_duplicate_right() {
    let mut table = ObjectTable::new();
    let (h0, _h1) = Channel::create(&mut table);
    let no_dup = h0.duplicate(&mut table, Rights::new(RIGHT_READ | RIGHT_WRITE)).unwrap();
    assert_eq!(
        no_dup.duplicate(&mut table, Rights::new(RIGHT_READ)).unwrap_err(),
        ZxError::AccessDenied
    );
}

#[test]
fn duplicate_works_on_any_object_kind() {
    let mut table = ObjectTable::new();
    let ph = Port::create(&mut table);
    let dup = ph.duplicate(&mut table, Rights::new(RIGHT_READ)).unwrap();
    assert_eq!(dup.id(), ph.id());
    assert_eq!(table.ref_count(ph.id()), 2);
}

#[test]
fn duplicate_a_dead_object_is_bad_handle() {
    let mut table = ObjectTable::new();
    let (h0, _h1) = Channel::create(&mut table);
    let stale = Handle::new(h0.id(), h0.rights());
    assert_eq!(table.close(h0), Ok(()));
    assert_eq!(
        stale.duplicate(&mut table, Rights::new(RIGHT_READ)).unwrap_err(),
        ZxError::BadHandle
    );
}

#[test]
fn object_survives_until_last_reference_is_closed() {
    let mut table = ObjectTable::new();
    let (h0, h1) = Channel::create(&mut table);
    let dup = h0.duplicate(&mut table, Rights::channel_default()).unwrap();
    assert_eq!(table.ref_count(dup.id()), 2);
    assert_eq!(table.close(h0), Ok(()));
    // One reference remains: the peer can still write to it.
    assert_eq!(table.ref_count(dup.id()), 1);
    let p = MessagePacket::new(b"still-there".to_vec(), Vec::new());
    assert_eq!(table.write(&h1, p), Ok(()));
    assert_eq!(table.read(&dup).unwrap().data, b"still-there".to_vec());
    assert_eq!(table.close(dup), Ok(()));
    let p2 = MessagePacket::new(b"gone".to_vec(), Vec::new());
    assert_eq!(table.write(&h1, p2), Err(ZxError::PeerClosed));
}

#[test]
fn endpoint_records_carry_their_identity() {
    let ch = Channel::new(7, 8);
    assert_eq!(ch.id(), 7);
    let p = Port::new(9);
    assert_eq!(p.id(), 9);
}

#[test]
fn rights_bitset_operations() {
    let all = Rights::channel_default();
    assert_eq!(all.bits, RIGHT_DUPLICATE | RIGHT_READ | RIGHT_WRITE | RIGHT_TRANSFER);
    assert!(all.contains(RIGHT_WRITE));
    assert!(all.contains(RIGHT_READ | RIGHT_TRANSFER));
    let rw = Rights::new(RIGHT_READ | RIGHT_WRITE);
    assert!(!rw.contains(RIGHT_DUPLICATE));
    assert!(rw.subset_of(&all));
    assert!(!all.subset_of(&rw));
    assert_eq!(rw.intersect(&Rights::new(RIGHT_WRITE | RIGHT_TRANSFER)).bits, RIGHT_WRITE);
    assert_eq!(Rights::empty().bits, 0);
    assert!(Rights::empty().subset_of(&rw));
    assert_eq!(Rights::port_default().bits, RIGHT_DUPLICATE | RIGHT_READ | RIGHT_WRITE);
}

#[test]
fn packets_keep_data_and_handle_order() {
    let mut table = ObjectTable::new();
    let (a0, a1) = Channel::create(&mut table);
    let (b0, b1) = Channel::create(&mut table);
    let (c0, c1) = Channel::create(&mut table);
    let b1_koid = b1.id();
    let c1_koid = c1.id();
    let p = MessagePacket::new(b"two".to_vec(), vec![b1, c1]);
    assert_eq!(table.write(&a0, p), Ok(()));
    let got = table.read(&a1).unwrap();
    assert_eq!(got.handles.len(), 2);
    assert_eq!(got.handles[0].id(), b1_koid);
    assert_eq!(got.handles[1].id(), c1_koid);
    drop(b0);
    drop(c0);
}
