//! Rights: a bitset of operations permitted through a particular handle.
//!
//! Rights qualify a reference (a `Handle`), not the object itself; two
//! handles to one object may carry different rights.

use vstd::prelude::*;

verus! {

/// Permission to duplicate a handle.
pub const RIGHT_DUPLICATE: u32 = 0x1;
/// Permission to read from the object (for channels: dequeue packets).
pub const RIGHT_READ: u32 = 0x2;
/// Permission to write to the object (for channels: enqueue packets).
pub const RIGHT_WRITE: u32 = 0x4;
/// Permission to transfer the handle through a channel message.
pub const RIGHT_TRANSFER: u32 = 0x8;

/// A bitset of permitted operations, attached to a handle.
#[derive(Clone, Copy, Debug, PartialEq, Eq, Structural)]
pub struct Rights {
    pub bits: u32,
}

impl Rights {
    /// The rights set carried by the bits `bits`.
    pub fn new(bits: u32) -> (r: Rights)
        ensures
            r.bits == bits,
    {
        Rights { bits }
    }

    /// The empty rights set.
    pub fn empty() -> (r: Rights)
        ensures
            r.bits == 0,
    {
        Rights { bits: 0 }
    }

    /// True when every right in `bits` is present in this set.
    pub open spec fn spec_contains(self, bits: u32) -> bool {
        self.bits & bits == bits
    }

    /// True when this set is a subset of `other`.
    pub open spec fn spec_subset_of(self, other: Rights) -> bool {
        self.bits & other.bits == self.bits
    }

    /// Tests whether every right in `bits` is present in this set.
    pub fn contains(&self, bits: u32) -> (b: bool)
        ensures
            b == self.spec_contains(bits),
    {
        self.bits & bits == bits
    }

    /// Tests whether this set is a subset of `other`.
    pub fn subset_of(&self, other: &Rights) -> (b: bool)
        ensures
            b == self.spec_subset_of(*other),
    {
        self.bits & other.bits == self.bits
    }

    /// The intersection of two rights sets.
    pub fn intersect(&self, other: &Rights) -> (r: Rights)
        ensures
            r.bits == self.bits & other.bits,
    {
        Rights { bits: self.bits & other.bits }
    }

    /// The rights granted on each endpoint handle of a fresh channel.
    pub open spec fn spec_channel_default() -> Rights {
        Rights { bits: RIGHT_DUPLICATE | RIGHT_READ | RIGHT_WRITE | RIGHT_TRANSFER }
    }

    /// Builds the default rights of a fresh channel endpoint handle.
    pub fn channel_default() -> (r: Rights)
        ensures
            r == Rights::spec_channel_default(),
    {
        Rights { bits: RIGHT_DUPLICATE | RIGHT_READ | RIGHT_WRITE | RIGHT_TRANSFER }
    }

    /// The rights granted on the handle of a fresh port.
    pub open spec fn spec_port_default() -> Rights {
        Rights { bits: RIGHT_DUPLICATE | RIGHT_READ | RIGHT_WRITE }
    }

    /// Builds the default rights of a fresh port handle.
    pub fn port_default() -> (r: Rights)
        ensures
            r == Rights::spec_port_default(),
    {
        Rights { bits: RIGHT_DUPLICATE | RIGHT_READ | RIGHT_WRITE }
    }
}

/// The default channel rights contain exactly the four rights they are
/// built from, and the default port rights the three, with the write
/// right held and the transfer right absent where expected; spelled
/// out here once so callers need no bit reasoning of their own.
pub proof fn lemma_default_rights()
    ensures
        Rights::spec_channel_default().spec_contains(RIGHT_DUPLICATE),
        Rights::spec_channel_default().spec_contains(RIGHT_READ),
        Rights::spec_channel_default().spec_contains(RIGHT_WRITE),
        Rights::spec_channel_default().spec_contains(RIGHT_TRANSFER),
        Rights::spec_port_default().spec_contains(RIGHT_DUPLICATE),
        Rights::spec_port_default().spec_contains(RIGHT_READ),
        Rights::spec_port_default().spec_contains(RIGHT_WRITE),
        !Rights::spec_port_default().spec_contains(RIGHT_TRANSFER),
{
    assert(((0x1u32 | 0x2u32 | 0x4u32 | 0x8u32) & 0x1u32) == 0x1u32) by (bit_vector);
    assert(((0x1u32 | 0x2u32 | 0x4u32 | 0x8u32) & 0x2u32) == 0x2u32) by (bit_vector);
    assert(((0x1u32 | 0x2u32 | 0x4u32 | 0x8u32) & 0x4u32) == 0x4u32) by (bit_vector);
    assert(((0x1u32 | 0x2u32 | 0x4u32 | 0x8u32) & 0x8u32) == 0x8u32) by (bit_vector);
    assert(((0x1u32 | 0x2u32 | 0x4u32) & 0x1u32) == 0x1u32) by (bit_vector);
    assert(((0x1u32 | 0x2u32 | 0x4u32) & 0x2u32) == 0x2u32) by (bit_vector);
    assert(((0x1u32 | 0x2u32 | 0x4u32) & 0x4u32) == 0x4u32) by (bit_vector);
    assert(((0x1u32 | 0x2u32 | 0x4u32) & 0x8u32) != 0x8u32) by (bit_vector);
}

/// A rights set that is a subset of another intersects with it to itself:
/// granting `requested ∩ source` when `requested ⊆ source` grants exactly
/// `requested`, never more.
pub proof fn lemma_subset_intersect_exact(a: Rights, b: Rights)
    requires
        a.spec_subset_of(b),
    ensures
        a.bits & b.bits == a.bits,
{
}

} // verus!
