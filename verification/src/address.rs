//! The packed configuration-space address key.
use vstd::prelude::*;

verus! {

/// PCIe supports 65536 segments, each with 256 buses, each with 32 devices,
/// each with 8 possible functions. The four fields are packed into a `u32`
/// so that the integer order of the key is the lexicographic order of
/// (segment, bus, device, function):
///
/// ```text
/// 32                              16               8         3      0
///  +-------------------------------+---------------+---------+------+
///  |            segment            |      bus      | device  | func |
///  +-------------------------------+---------------+---------+------+
/// ```
#[derive(Clone, Copy, PartialEq, Eq, PartialOrd, Ord, Debug, Default)]
pub struct PciAddress(u32);

/// The error reported when an advance operation would move past the last
/// representable address (segment 0xFFFF, bus 0xFF, device 0x1F, function 7),
/// so that an enumerator can stop cleanly.
#[derive(Clone, Copy, PartialEq, Eq, Debug)]
pub struct AddressSpaceExhausted;

/// The segment field of a packed key: bits 16..32.
pub open spec fn seg_of(v: u32) -> u16 {
    (v >> 16) as u16
}

/// The bus field of a packed key: bits 8..16.
pub open spec fn bus_of(v: u32) -> u8 {
    ((v >> 8) & 0xff) as u8
}

/// The device field of a packed key: bits 3..8.
pub open spec fn dev_of(v: u32) -> u8 {
    ((v >> 3) & 0x1f) as u8
}

/// The function field of a packed key: bits 0..3.
pub open spec fn fun_of(v: u32) -> u8 {
    (v & 0x7) as u8
}

/// The packed key holding the four fields, for device < 32 and function < 8.
pub open spec fn spec_pack(segment: u16, bus: u8, device: u8, function: u8) -> u32 {
    ((segment as u32) << 16) | ((bus as u32) << 8) | ((device as u32) << 3) | (function as u32)
}

impl PciAddress {
    /// The underlying packed integer key.
    pub closed spec fn spec_key(&self) -> u32 {
        self.0
    }

    pub open spec fn spec_segment(&self) -> u16 {
        seg_of(self.spec_key())
    }

    pub open spec fn spec_bus(&self) -> u8 {
        bus_of(self.spec_key())
    }

    pub open spec fn spec_device(&self) -> u8 {
        dev_of(self.spec_key())
    }

    pub open spec fn spec_function(&self) -> u8 {
        fun_of(self.spec_key())
    }

    /// Packs the four fields into one key. Each field decodes back to the
    /// exact input: encoding is lossless over the whole in-range domain.
    pub fn new(segment: u16, bus: u8, device: u8, function: u8) -> (r: PciAddress)
        requires
            device < 32,
            function < 8,
        ensures
            r.spec_key() == spec_pack(segment, bus, device, function),
            r.spec_segment() == segment,
            r.spec_bus() == bus,
            r.spec_device() == device,
            r.spec_function() == function,
    {
        let value: u32 = ((segment as u32) << 16) | ((bus as u32) << 8) | ((device as u32) << 3)
            | (function as u32);
        proof {
            lemma_pack_round_trip(segment, bus, device, function);
        }
        PciAddress(value)
    }

    pub fn segment(&self) -> (r: u16)
        ensures
            r == self.spec_segment(),
    {
        (self.0 >> 16) as u16
    }

    pub fn bus(&self) -> (r: u8)
        ensures
            r == self.spec_bus(),
    {
        ((self.0 >> 8) & 0xff) as u8
    }

    pub fn device(&self) -> (r: u8)
        ensures
            r == self.spec_device(),
    {
        ((self.0 >> 3) & 0x1f) as u8
    }

    pub fn function(&self) -> (r: u8)
        ensures
            r == self.spec_function(),
    {
        (self.0 & 0x7) as u8
    }

    /// The address rendered as `segment-bus:device.function`, hex but for
    /// the decimal function, the way an enumerator logs a location.
    pub fn display(&self) -> String {
        format_fields(self.segment(), self.bus(), self.device(), self.function())
    }

    /// Advances the address to the next sequential function. Overflow of the
    /// function field carries into the device field, and so on upward; only
    /// the very last representable address reports exhaustion.
    pub fn increment_function(&mut self) -> (r: Result<(), AddressSpaceExhausted>)
        ensures
            r is Err <==> (old(self).spec_segment() == 0xffff && old(self).spec_bus() == 0xff && old(self).spec_device() == 0x1f && old(self).spec_function() == 7),
            r is Err ==> *final(self) == *old(self),
            r is Ok ==> final(self).spec_key() == old(self).spec_key() + 1,
            r is Ok && old(self).spec_function() < 7 ==> final(self).spec_function() == old(self).spec_function() + 1 && final(self).spec_device() == old(self).spec_device() && final(self).spec_bus() == old(self).spec_bus() && final(self).spec_segment() == old(self).spec_segment(),
            r is Ok && old(self).spec_function() == 7 && old(self).spec_device() < 0x1f ==> final(self).spec_function() == 0 && final(self).spec_device() == old(self).spec_device() + 1
                && final(self).spec_bus() == old(self).spec_bus() && final(self).spec_segment()
                == old(self).spec_segment(),
            r is Ok && old(self).spec_function() == 7 && old(self).spec_device() == 0x1f && old(self).spec_bus() < 0xff ==> final(self).spec_function() == 0 && final(self).spec_device()
                == 0 && final(self).spec_bus() == old(self).spec_bus() + 1 && final(self).spec_segment() == old(self).spec_segment(),
            r is Ok && old(self).spec_function() == 7 && old(self).spec_device() == 0x1f && old(self).spec_bus() == 0xff ==> final(self).spec_function() == 0 && final(self).spec_device()
                == 0 && final(self).spec_bus() == 0 && final(self).spec_segment() == old(self).spec_segment() + 1,
    {
        proof {
            let v = self.0;
            assert(v == 0xffff_ffffu32 <==> ((v >> 16) as u16 == 0xffff && ((v >> 8)
                & 0xff) as u8 == 0xff && ((v >> 3) & 0x1f) as u8 == 0x1f && (v & 0x7) as u8 == 7))
                by (bit_vector);
        }
        if self.0 == 0xffff_ffff {
            Err(AddressSpaceExhausted)
        } else {
            let ghost v = self.0;
            self.0 = self.0 + 1;
            proof {
                let w = self.0;
                assert((((v & 0x7) as u8) < 7 ==> (w & 0x7) as u8 == (v & 0x7) as u8 + 1 && ((w
                    >> 3) & 0x1f) as u8 == ((v >> 3) & 0x1f) as u8 && ((w >> 8) & 0xff) as u8 == ((
                v >> 8) & 0xff) as u8 && (w >> 16) as u16 == (v >> 16) as u16) && ((v
                    & 0x7) as u8 == 7 && (((v >> 3) & 0x1f) as u8) < 0x1f ==> (w & 0x7) as u8 == 0
                    && ((w >> 3) & 0x1f) as u8 == ((v >> 3) & 0x1f) as u8 + 1 && ((w >> 8)
                    & 0xff) as u8 == ((v >> 8) & 0xff) as u8 && (w >> 16) as u16 == (v
                    >> 16) as u16) && ((v & 0x7) as u8 == 7 && ((v >> 3) & 0x1f) as u8 == 0x1f && (
                ((v >> 8) & 0xff) as u8) < 0xff ==> (w & 0x7) as u8 == 0 && ((w >> 3)
                    & 0x1f) as u8 == 0 && ((w >> 8) & 0xff) as u8 == ((v >> 8) & 0xff) as u8 + 1
                    && (w >> 16) as u16 == (v >> 16) as u16) && ((v & 0x7) as u8 == 7 && ((v >> 3)
                    & 0x1f) as u8 == 0x1f && ((v >> 8) & 0xff) as u8 == 0xff ==> (w & 0x7) as u8
                    == 0 && ((w >> 3) & 0x1f) as u8 == 0 && ((w >> 8) & 0xff) as u8 == 0 && (w
                    >> 16) as u16 == (v >> 16) as u16 + 1)) by (bit_vector)
                    requires
                        w == v + 1,
                        v < 0xffff_ffffu32,
                ;
            }
            Ok(())
        }
    }

    /// Advances the address to function 0 of the next device. Overflow of the
    /// device field carries into the bus field, and so on upward.
    pub fn increment_device(&mut self) -> (r: Result<(), AddressSpaceExhausted>)
        ensures
            r is Err <==> (old(self).spec_segment() == 0xffff && old(self).spec_bus() == 0xff && old(self).spec_device() == 0x1f),
            r is Err ==> *final(self) == *old(self),
            r is Ok ==> final(self).spec_function() == 0,
            r is Ok && old(self).spec_device() < 0x1f ==> final(self).spec_device() == old(self).spec_device() + 1 && final(self).spec_bus() == old(self).spec_bus() && final(self).spec_segment() == old(self).spec_segment(),
            r is Ok && old(self).spec_device() == 0x1f && old(self).spec_bus() < 0xff ==> final(self).spec_device() == 0 && final(self).spec_bus() == old(self).spec_bus() + 1 && final(self).spec_segment() == old(self).spec_segment(),
            r is Ok && old(self).spec_device() == 0x1f && old(self).spec_bus() == 0xff ==> final(self).spec_device() == 0 && final(self).spec_bus() == 0 && final(self).spec_segment()
                == old(self).spec_segment() + 1,
    {
        proof {
            let v = self.0;
            assert(v >= 0xffff_fff8u32 <==> ((v >> 16) as u16 == 0xffff && ((v >> 8)
                & 0xff) as u8 == 0xff && ((v >> 3) & 0x1f) as u8 == 0x1f)) by (bit_vector);
        }
        if self.0 >= 0xffff_fff8 {
            Err(AddressSpaceExhausted)
        } else {
            let ghost v = self.0;
            self.0 = (self.0 + 8) & 0xffff_fff8;
            proof {
                let w = self.0;
                assert(((w & 0x7) as u8 == 0) && ((((v >> 3) & 0x1f) as u8) < 0x1f ==> ((w >> 3)
                    & 0x1f) as u8 == ((v >> 3) & 0x1f) as u8 + 1 && ((w >> 8) & 0xff) as u8 == ((v
                    >> 8) & 0xff) as u8 && (w >> 16) as u16 == (v >> 16) as u16) && (((v >> 3)
                    & 0x1f) as u8 == 0x1f && (((v >> 8) & 0xff) as u8) < 0xff ==> ((w >> 3)
                    & 0x1f) as u8 == 0 && ((w >> 8) & 0xff) as u8 == ((v >> 8) & 0xff) as u8 + 1
                    && (w >> 16) as u16 == (v >> 16) as u16) && (((v >> 3) & 0x1f) as u8 == 0x1f
                    && ((v >> 8) & 0xff) as u8 == 0xff ==> ((w >> 3) & 0x1f) as u8 == 0 && ((w
                    >> 8) & 0xff) as u8 == 0 && (w >> 16) as u16 == (v >> 16) as u16 + 1))
                    by (bit_vector)
                    requires
                        w == ((v + 8) as u32) & 0xffff_fff8,
                        v < 0xffff_fff8u32,
                ;
            }
            Ok(())
        }
    }

    /// Advances the address to device 0, function 0 of the next bus. Overflow
    /// of the bus field carries into the segment field.
    pub fn increment_bus(&mut self) -> (r: Result<(), AddressSpaceExhausted>)
        ensures
            r is Err <==> (old(self).spec_segment() == 0xffff && old(self).spec_bus() == 0xff),
            r is Err ==> *final(self) == *old(self),
            r is Ok ==> final(self).spec_function() == 0 && final(self).spec_device() == 0,
            r is Ok && old(self).spec_bus() < 0xff ==> final(self).spec_bus() == old(self).spec_bus()
                + 1 && final(self).spec_segment() == old(self).spec_segment(),
            r is Ok && old(self).spec_bus() == 0xff ==> final(self).spec_bus() == 0 && final(self).spec_segment() == old(self).spec_segment() + 1,
    {
        proof {
            let v = self.0;
            assert(v >= 0xffff_ff00u32 <==> ((v >> 16) as u16 == 0xffff && ((v >> 8)
                & 0xff) as u8 == 0xff)) by (bit_vector);
        }
        if self.0 >= 0xffff_ff00 {
            Err(AddressSpaceExhausted)
        } else {
            let ghost v = self.0;
            self.0 = (self.0 + 0x100) & 0xffff_ff00;
            proof {
                let w = self.0;
                assert(((w & 0x7) as u8 == 0) && (((w >> 3) & 0x1f) as u8 == 0) && ((((v >> 8)
                    & 0xff) as u8) < 0xff ==> ((w >> 8) & 0xff) as u8 == ((v >> 8) & 0xff) as u8
                    + 1 && (w >> 16) as u16 == (v >> 16) as u16) && (((v >> 8) & 0xff) as u8
                    == 0xff ==> ((w >> 8) & 0xff) as u8 == 0 && (w >> 16) as u16 == (v
                    >> 16) as u16 + 1)) by (bit_vector)
                    requires
                        w == ((v + 0x100) as u32) & 0xffff_ff00,
                        v < 0xffff_ff00u32,
                ;
            }
            Ok(())
        }
    }

    /// Advances the address to bus 0, device 0, function 0 of the next
    /// segment.
    pub fn increment_segment(&mut self) -> (r: Result<(), AddressSpaceExhausted>)
        ensures
            r is Err <==> old(self).spec_segment() == 0xffff,
            r is Err ==> *final(self) == *old(self),
            r is Ok ==> final(self).spec_function() == 0 && final(self).spec_device() == 0 && final(self).spec_bus() == 0 && final(self).spec_segment() == old(self).spec_segment() + 1,
    {
        proof {
            let v = self.0;
            assert(v >= 0xffff_0000u32 <==> (v >> 16) as u16 == 0xffff) by (bit_vector);
        }
        if self.0 >= 0xffff_0000 {
            Err(AddressSpaceExhausted)
        } else {
            let ghost v = self.0;
            self.0 = (self.0 + 0x10000) & 0xffff_0000;
            proof {
                let w = self.0;
                assert(((w & 0x7) as u8 == 0) && (((w >> 3) & 0x1f) as u8 == 0) && (((w >> 8)
                    & 0xff) as u8 == 0) && ((w >> 16) as u16 == (v >> 16) as u16 + 1))
                    by (bit_vector)
                    requires
                        w == ((v + 0x10000) as u32) & 0xffff_0000,
                        v < 0xffff_0000u32,
                ;
            }
            Ok(())
        }
    }
}

/// Relies on alloc's format macro to render the four fields as
/// two-hex-digit segment, bus and device and a decimal function.
#[verifier::external_body]
fn format_fields(segment: u16, bus: u8, device: u8, function: u8) -> String {
    format!("{:02x}-{:02x}:{:02x}.{}", segment, bus, device, function)
}

/// Law: the fields of a packed key are exactly the values that were packed,
/// for every in-range segment, bus, device and function.
pub proof fn lemma_pack_round_trip(segment: u16, bus: u8, device: u8, function: u8)
    requires
        device < 32,
        function < 8,
    ensures
        seg_of(spec_pack(segment, bus, device, function)) == segment,
        bus_of(spec_pack(segment, bus, device, function)) == bus,
        dev_of(spec_pack(segment, bus, device, function)) == device,
        fun_of(spec_pack(segment, bus, device, function)) == function,
{
    let s = segment;
    let b = bus;
    let d = device;
    let f = function;
    assert({
        let v = ((s as u32) << 16) | ((b as u32) << 8) | ((d as u32) << 3) | (f as u32);
        (v >> 16) as u16 == s && ((v >> 8) & 0xff) as u8 == b && ((v >> 3) & 0x1f) as u8 == d && (
        v & 0x7) as u8 == f
    }) by (bit_vector)
        requires
            d < 32,
            f < 8,
    ;
}

/// Law: the integer order of two packed keys is the lexicographic order of
/// their (segment, bus, device, function) fields.
pub proof fn lemma_key_order_lexicographic(x: u32, y: u32)
    ensures
        x < y <==> (seg_of(x) < seg_of(y) || (seg_of(x) == seg_of(y) && (bus_of(x) < bus_of(y) || (
        bus_of(x) == bus_of(y) && (dev_of(x) < dev_of(y) || (dev_of(x) == dev_of(y) && fun_of(x)
            < fun_of(y))))))),
{
    assert(x < y <==> (((x >> 16) as u16) < ((y >> 16) as u16) || ((x >> 16) as u16 == (y
        >> 16) as u16 && ((((x >> 8) & 0xff) as u8) < (((y >> 8) & 0xff) as u8) || (((x >> 8)
        & 0xff) as u8 == ((y >> 8) & 0xff) as u8 && ((((x >> 3) & 0x1f) as u8) < (((y >> 3)
        & 0x1f) as u8) || (((x >> 3) & 0x1f) as u8 == ((y >> 3) & 0x1f) as u8 && ((x
        & 0x7) as u8) < ((y & 0x7) as u8)))))))) by (bit_vector);
}

} // verus!
