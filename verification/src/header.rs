//! The predefined header region common to every function.
use vstd::prelude::*;

use crate::BaseClass;
use crate::ConfigRegionAccess;
use crate::DeviceId;
use crate::DeviceRevision;
use crate::HeaderType;
use crate::Interface;
use crate::PciAddress;
use crate::StatusRegister;
use crate::SubClass;
use crate::VendorId;

verus! {

pub open spec fn spec_vendor_of(word: u32) -> u16 {
    (word & 0xffff) as u16
}

pub open spec fn spec_device_of(word: u32) -> u16 {
    ((word >> 16) & 0xffff) as u16
}

pub open spec fn spec_header_type_of(word: u32) -> u8 {
    ((word >> 16) & 0x7f) as u8
}

pub open spec fn spec_multiple_functions_of(word: u32) -> bool {
    (word >> 23) & 1 == 1
}

pub open spec fn spec_revision_of(word: u32) -> u8 {
    (word & 0xff) as u8
}

pub open spec fn spec_base_class_of(word: u32) -> u8 {
    ((word >> 24) & 0xff) as u8
}

pub open spec fn spec_sub_class_of(word: u32) -> u8 {
    ((word >> 16) & 0xff) as u8
}

pub open spec fn spec_interface_of(word: u32) -> u8 {
    ((word >> 8) & 0xff) as u8
}

pub open spec fn spec_status_bits_of(word: u32) -> u16 {
    ((word >> 16) & 0xffff) as u16
}

/// Splits the identity word at offset 0x00 into (vendor id, device id).
pub fn decode_id(word: u32) -> (r: (VendorId, DeviceId))
    ensures
        r.0 == spec_vendor_of(word),
        r.1 == spec_device_of(word),
{
    ((word & 0xffff) as u16, ((word >> 16) & 0xffff) as u16)
}

/// Extracts the header type from the word at offset 0x0c: bits 16..23, that
/// is the low 7 bits of the header-type byte. Bit 23, the multi-function
/// flag, is not part of the type.
pub fn decode_header_type(word: u32) -> (r: HeaderType)
    ensures
        r == spec_header_type_of(word),
        r < 0x80,
{
    proof {
        assert((((word >> 16) & 0x7f) as u8) < 0x80) by (bit_vector);
    }
    ((word >> 16) & 0x7f) as u8
}

/// Extracts the multi-function flag from the word at offset 0x0c: bit 23.
pub fn decode_multiple_functions(word: u32) -> (r: bool)
    ensures
        r == spec_multiple_functions_of(word),
{
    (word >> 23) & 1 == 1
}

/// Splits the word at offset 0x08 into (revision, base class, sub class,
/// programming interface).
pub fn decode_revision_and_class(word: u32) -> (r: (
    DeviceRevision,
    BaseClass,
    SubClass,
    Interface,
))
    ensures
        r.0 == spec_revision_of(word),
        r.1 == spec_base_class_of(word),
        r.2 == spec_sub_class_of(word),
        r.3 == spec_interface_of(word),
{
    (
        (word & 0xff) as u8,
        ((word >> 24) & 0xff) as u8,
        ((word >> 16) & 0xff) as u8,
        ((word >> 8) & 0xff) as u8,
    )
}

/// Decodes the status register from the word at offset 0x04: its upper 16
/// bits.
pub fn decode_status(word: u32) -> (r: StatusRegister)
    ensures
        r.spec_bits() == spec_status_bits_of(word),
{
    StatusRegister::new(((word >> 16) & 0xffff) as u16)
}

/// A value handle on the predefined region of a function's configuration
/// header (bytes 0x00..0x10). Each accessor issues exactly one aligned
/// 4-byte read at the documented offset; the value decoded from that read
/// is pinned by the `spec_*_of` field functions.
pub struct PciHeader(PciAddress);

impl PciHeader {
    /// The address this header decodes.
    pub closed spec fn spec_address(&self) -> PciAddress {
        self.0
    }

    pub fn new(address: PciAddress) -> (r: PciHeader)
        ensures
            r.spec_address() == address,
    {
        PciHeader(address)
    }

    /// The address this header decodes, for the crate's other decoders.
    pub(crate) fn into_address(self) -> (r: PciAddress)
        ensures
            r == self.spec_address(),
    {
        self.0
    }

    /// The (vendor id, device id) pair from offset 0x00.
    pub fn id<T: ConfigRegionAccess>(&self, access: &T) -> (r: (VendorId, DeviceId))
        ensures
            exists|word: u32| r == (spec_vendor_of(word), spec_device_of(word)),
    {
        let word = access.read(self.0, 0x00);
        let r = decode_id(word);
        proof {
            assert(r == (spec_vendor_of(word), spec_device_of(word)));
        }
        r
    }

    /// The low 7 bits of the header-type byte, from offset 0x0c.
    pub fn header_type<T: ConfigRegionAccess>(&self, access: &T) -> (r: HeaderType)
        ensures
            r < 0x80,
            exists|word: u32| r == spec_header_type_of(word),
    {
        let word = access.read(self.0, 0x0c);
        let r = decode_header_type(word);
        proof {
            assert(r == spec_header_type_of(word));
        }
        r
    }

    /// Bit 7 of the header-type byte: whether the device has multiple
    /// functions.
    pub fn has_multiple_functions<T: ConfigRegionAccess>(&self, access: &T) -> (r: bool)
        ensures
            exists|word: u32| r == spec_multiple_functions_of(word),
    {
        let word = access.read(self.0, 0x0c);
        let r = decode_multiple_functions(word);
        proof {
            assert(r == spec_multiple_functions_of(word));
        }
        r
    }

    /// The (revision, base class, sub class, interface) fields from offset
    /// 0x08.
    pub fn revision_and_class<T: ConfigRegionAccess>(&self, access: &T) -> (r: (
        DeviceRevision,
        BaseClass,
        SubClass,
        Interface,
    ))
        ensures
            exists|word: u32|
                r == (
                    spec_revision_of(word),
                    spec_base_class_of(word),
                    spec_sub_class_of(word),
                    spec_interface_of(word),
                ),
    {
        let word = access.read(self.0, 0x08);
        let r = decode_revision_and_class(word);
        proof {
            assert(r == (
                spec_revision_of(word),
                spec_base_class_of(word),
                spec_sub_class_of(word),
                spec_interface_of(word),
            ));
        }
        r
    }

    /// The decoded status register from the upper 16 bits of offset 0x04.
    pub fn status<T: ConfigRegionAccess>(&self, access: &T) -> (r: StatusRegister)
        ensures
            exists|word: u32| r.spec_bits() == spec_status_bits_of(word),
    {
        let word = access.read(self.0, 0x04);
        let r = decode_status(word);
        proof {
            assert(r.spec_bits() == spec_status_bits_of(word));
        }
        r
    }
}

} // verus!
