//! Capability bits of a GATT characteristic, as the central stack reports them.

use vstd::prelude::*;

verus! {

/// The characteristic may be broadcast in advertisements.
pub const BROADCAST: u8 = 0x01;

/// The characteristic value may be read.
pub const READ: u8 = 0x02;

/// The characteristic value may be written without a confirmation.
pub const WRITE_WITHOUT_RESPONSE: u8 = 0x04;

/// The characteristic value may be written with a confirmation.
pub const WRITE: u8 = 0x08;

/// The characteristic can push unacknowledged value updates.
pub const NOTIFY: u8 = 0x10;

/// The characteristic can push acknowledged value updates.
pub const INDICATE: u8 = 0x20;

/// The characteristic accepts signed writes.
pub const AUTHENTICATED_SIGNED_WRITES: u8 = 0x40;

/// Further properties are listed in an extended-properties descriptor.
pub const EXTENDED_PROPERTIES: u8 = 0x80;

/// A set of characteristic properties, one bit per property.
#[derive(Clone, Copy, Debug, PartialEq, Eq, Structural)]
pub struct PropertyFlags {
    pub bits: u8,
}

impl PropertyFlags {
    /// Every bit of `mask` is set.
    pub open spec fn has(self, mask: u8) -> bool {
        self.bits & mask == mask
    }

    /// The hardware "readable" flag is present.
    pub open spec fn readable(self) -> bool {
        self.has(READ)
    }

    /// The hardware "writable" or "writable-without-response" flag is present.
    pub open spec fn writable(self) -> bool {
        self.has(WRITE) || self.has(WRITE_WITHOUT_RESPONSE)
    }

    /// The hardware "notifiable" or "indicatable" flag is present.
    pub open spec fn subscribable(self) -> bool {
        self.has(NOTIFY) || self.has(INDICATE)
    }

    /// The set with no property.
    pub fn empty() -> (flags: PropertyFlags)
        ensures
            flags.bits == 0,
    {
        PropertyFlags { bits: 0 }
    }

    /// The set whose bits are exactly `bits`.
    pub fn from_bits(bits: u8) -> (flags: PropertyFlags)
        ensures
            flags.bits == bits,
    {
        PropertyFlags { bits }
    }

    /// The bits of the set.
    pub fn bits(&self) -> (bits: u8)
        ensures
            bits == self.bits,
    {
        self.bits
    }

    /// Whether every bit of `mask` is set.
    pub fn contains(&self, mask: u8) -> (present: bool)
        ensures
            present == self.has(mask),
    {
        self.bits & mask == mask
    }
}

} // verus!
