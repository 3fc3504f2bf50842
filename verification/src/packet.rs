//! MessagePacket: the unit of transport through a channel.
//!
//! A packet pairs an ordered byte payload with an ordered sequence of
//! handles being transferred. Once enqueued its contents are immutable
//! until dequeued; the handles it carries are moved, not duplicated.

use vstd::prelude::*;

use crate::handle::Handle;

verus! {

/// An immutable payload unit: raw bytes plus the handles being transferred.
#[derive(Debug)]
pub struct MessagePacket {
    /// The opaque byte payload; this core imposes no internal structure.
    pub data: Vec<u8>,
    /// The capabilities moved from sender to receiver, in order.
    pub handles: Vec<Handle>,
}

impl MessagePacket {
    /// Builds a packet from a payload and the handles to transfer with it.
    pub fn new(data: Vec<u8>, handles: Vec<Handle>) -> (p: MessagePacket)
        ensures
            p.data == data,
            p.handles == handles,
    {
        MessagePacket { data, handles }
    }
}

} // verus!
