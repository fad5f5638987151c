//! The type-0 (endpoint) header: BAR resource discovery and the root of the
//! capability list.
use vstd::prelude::*;

use crate::CapabilityIterator;
use crate::ConfigRegionAccess;
use crate::HEADER_TYPE_ENDPOINT;
use crate::HeaderType;
use crate::PciAddress;
use crate::PciHeader;
use crate::StatusRegister;
use crate::header::decode_status;
use crate::header::spec_header_type_of;
use crate::header::spec_status_bits_of;

verus! {

/// A decoded, already-probed resource window claimed by a function.
/// Constructed only by the BAR resolver.
#[derive(Clone, Copy, PartialEq, Eq, Debug)]
#[allow(inconsistent_fields)]
pub enum Bar {
    Memory32 { address: u32, size: u32, prefetchable: bool },
    Memory64 { address: u64, size: u64, prefetchable: bool },
    Io { port: u32 },
}

/// Malformed hardware state observed while resolving a BAR. Both are
/// recoverable: the caller can log the slot and skip it.
#[derive(Clone, Copy, PartialEq, Eq, Debug)]
pub enum BarError {
    /// Bits 1..3 of a memory BAR held a reserved width encoding.
    ReservedMemoryType,
    /// The size probe read back a value with flag bits set but no writable
    /// address bits, which encodes no size.
    InvalidSizeReadback,
}

/// What the BAR resolver returns for a raw BAR value `raw`, the value
/// `readback` read back after writing all-ones, and the word `upper` at the
/// next slot (consulted only for a 64-bit BAR):
/// - bit 0 of `raw` selects I/O decoding: the port is bits 2..32, and no
///   probe is needed;
/// - otherwise bits 1..3 select the width (0b00 is 32-bit, 0b10 is 64-bit,
///   the rest is reserved and an error);
/// - a `readback` of zero means the BAR is unimplemented: absence;
/// - otherwise the low 4 flag bits of `readback` are masked off and the size
///   is one shifted left by the count of trailing zero bits of the rest,
///   recovering the power-of-two size the hardware encodes by pulling low
///   address bits to zero.
pub open spec fn spec_decode_bar(raw: u32, readback: u32, upper: u32) -> Result<
    Option<Bar>,
    BarError,
> {
    if raw & 1 == 1 {
        Ok(Some(Bar::Io { port: raw >> 2 }))
    } else {
        let width = (raw >> 1) & 3;
        if width != 0 && width != 2 {
            Err(BarError::ReservedMemoryType)
        } else if readback == 0 {
            Ok(None)
        } else {
            let masked = readback & 0xffff_fff0;
            if masked == 0 {
                Err(BarError::InvalidSizeReadback)
            } else {
                let size = 1u32 << vstd::std_specs::bits::u32_trailing_zeros(masked);
                let address = raw & 0xffff_fff0;
                let prefetchable = (raw >> 3) & 1 == 1;
                if width == 0 {
                    Ok(Some(Bar::Memory32 { address, size, prefetchable }))
                } else {
                    Ok(
                        Some(
                            Bar::Memory64 {
                                address: ((upper as u64) << 32) | (address as u64),
                                size: size as u64,
                                prefetchable,
                            },
                        ),
                    )
                }
            }
        }
    }
}

/// Well-formedness of a decoded resource window: memory addresses keep their
/// 16-byte alignment (the low 4 bits of a BAR are flag bits, not address
/// bits), sizes are powers of two, and an I/O port fits in 30 bits.
pub open spec fn spec_bar_wf(bar: Bar) -> bool {
    match bar {
        Bar::Memory32 { address, size, prefetchable } => address & 0xf == 0 && exists|k: u32|
            k < 32 && size == 1u32 << k,
        Bar::Memory64 { address, size, prefetchable } => address & 0xf == 0 && exists|k: u64|
            k < 32 && size == 1u64 << k,
        Bar::Io { port } => port < 0x4000_0000,
    }
}

/// Law: every resource window the BAR resolver can return is well formed.
pub proof fn lemma_decoded_bar_well_formed(raw: u32, readback: u32, upper: u32)
    ensures
        spec_decode_bar(raw, readback, upper) matches Ok(Some(bar)) ==> spec_bar_wf(bar),
{
    if raw & 1 == 1 {
        assert(raw >> 2 < 0x4000_0000) by (bit_vector);
    } else {
        let width = (raw >> 1) & 3;
        let masked = readback & 0xffff_fff0;
        if (width == 0 || width == 2) && readback != 0 && masked != 0 {
            let tz = vstd::std_specs::bits::u32_trailing_zeros(masked);
            vstd::std_specs::bits::axiom_u32_trailing_zeros(masked);
            assert(tz < 32);
            assert(raw & 0xffff_fff0 & 0xf == 0) by (bit_vector);
            let size = 1u32 << tz;
            assert(exists|k: u32| k < 32 && size == 1u32 << k);
            if width == 2 {
                assert((((upper as u64) << 32) | ((raw & 0xffff_fff0) as u64)) & 0xf == 0)
                    by (bit_vector);
                assert(tz < 32 ==> ((1u32 << tz) as u64) == 1u64 << (tz as u64)) by (bit_vector);
                assert((tz as u64) < 32 && (size as u64) == 1u64 << (tz as u64));
                assert(exists|k: u64| k < 32 && (size as u64) == 1u64 << k);
            }
        }
    }
}

/// Turns the raw values gathered by the probe protocol into the resource
/// window, exactly as [`spec_decode_bar`] states.
pub fn decode_bar(raw: u32, readback: u32, upper: u32) -> (r: Result<Option<Bar>, BarError>)
    ensures
        r == spec_decode_bar(raw, readback, upper),
        r matches Ok(Some(bar)) ==> spec_bar_wf(bar),
{
    proof {
        lemma_decoded_bar_well_formed(raw, readback, upper);
    }
    if raw & 1 == 1 {
        Ok(Some(Bar::Io { port: raw >> 2 }))
    } else {
        let width = (raw >> 1) & 3;
        if width != 0 && width != 2 {
            Err(BarError::ReservedMemoryType)
        } else if readback == 0 {
            Ok(None)
        } else {
            let masked = readback & 0xffff_fff0;
            if masked == 0 {
                Err(BarError::InvalidSizeReadback)
            } else {
                let tz = masked.trailing_zeros();
                proof {
                    vstd::std_specs::bits::axiom_u32_trailing_zeros(masked);
                }
                let size = 1u32 << tz;
                let address = raw & 0xffff_fff0;
                let prefetchable = (raw >> 3) & 1 == 1;
                if width == 0 {
                    Ok(Some(Bar::Memory32 { address, size, prefetchable }))
                } else {
                    Ok(
                        Some(
                            Bar::Memory64 {
                                address: ((upper as u64) << 32) | (address as u64),
                                size: size as u64,
                                prefetchable,
                            },
                        ),
                    )
                }
            }
        }
    }
}

/// The capability pointer that follows from a decoded status register and
/// the word at offset 0x34: the word's low byte when the status register
/// announces a capability list, and 0 (no list) otherwise — the pointer word
/// is ignored then.
pub fn capability_pointer_for(status: StatusRegister, pointer_word: u32) -> (r: u16)
    ensures
        status.spec_has_capability_list() ==> r == (pointer_word & 0xff) as u16,
        !status.spec_has_capability_list() ==> r == 0,
        r < 0x100,
{
    proof {
        assert(((pointer_word & 0xff) as u16) < 0x100) by (bit_vector);
    }
    if status.has_capability_list() {
        (pointer_word & 0xff) as u16
    } else {
        0
    }
}

/// A value handle on a type-0 (endpoint) header. Constructible only from a
/// header whose type reads as 0; bridges and CardBus headers yield absence.
pub struct EndpointHeader(PciAddress);

/// The decision behind endpoint specialization: given a header and its
/// decoded type, the endpoint header exists exactly when the type is
/// [`HEADER_TYPE_ENDPOINT`]; any other type is not applicable, which is
/// absence, not an error. The endpoint header wraps the header's own address.
pub fn endpoint_for(header: PciHeader, header_type: HeaderType) -> (r: Option<EndpointHeader>)
    ensures
        r is Some <==> header_type == HEADER_TYPE_ENDPOINT,
        r matches Some(endpoint) ==> endpoint.spec_address() == header.spec_address(),
{
    if header_type == HEADER_TYPE_ENDPOINT {
        Some(EndpointHeader(header.into_address()))
    } else {
        None
    }
}

impl EndpointHeader {
    /// The address this header decodes.
    pub closed spec fn spec_address(&self) -> PciAddress {
        self.0
    }

    /// Specializes a header by the type decoded from one read at offset
    /// 0x0c: the result is present exactly when that type is 0 (endpoint),
    /// as [`endpoint_for`] states; any other type is absence, not an error.
    pub fn from_header<T: ConfigRegionAccess>(header: PciHeader, access: &T) -> (r: Option<
        EndpointHeader,
    >)
        ensures
            r matches Some(endpoint) ==> endpoint.spec_address() == header.spec_address(),
            exists|word: u32|
                (r is Some <==> spec_header_type_of(word) == HEADER_TYPE_ENDPOINT),
    {
        let header_type = header.header_type(access);
        let r = endpoint_for(header, header_type);
        proof {
            let word = choose|word: u32| header_type == spec_header_type_of(word);
            assert(r is Some <==> spec_header_type_of(word) == HEADER_TYPE_ENDPOINT);
        }
        r
    }

    /// The decoded status register from the upper 16 bits of offset 0x04.
    pub fn status<T: ConfigRegionAccess>(&self, access: &T) -> (r: StatusRegister)
        ensures
            exists|word: u32| r.spec_bits() == spec_status_bits_of(word),
    {
        let word = access.read(self.0, 0x04);
        let r = decode_status(word);
        proof {
            assert(r.spec_bits() == spec_status_bits_of(word));
        }
        r
    }

    /// The plain header at the same address.
    pub fn header(&self) -> (r: PciHeader)
        ensures
            r.spec_address() == self.spec_address(),
    {
        PciHeader::new(self.0)
    }

    /// The capability pointer: bits 0..8 of offset 0x34 when the status
    /// register announces a capability list. Without that announcement the
    /// pointer register is never read and the result is 0, the empty list.
    pub fn capability_pointer<T: ConfigRegionAccess>(&self, access: &T) -> (r: u16)
        ensures
            r < 0x100,
    {
        let status = self.status(access);
        if status.has_capability_list() {
            let word = access.read(self.0, 0x34);
            capability_pointer_for(status, word)
        } else {
            capability_pointer_for(status, 0)
        }
    }

    /// A fresh iterator over the capability list, rooted at the capability
    /// pointer. A pointer of 0 makes it immediately exhausted.
    pub fn capabilities<'a, T: ConfigRegionAccess>(&self, access: &'a T) -> (r: CapabilityIterator<
        'a,
        T,
    >)
        ensures
            r.wf(),
            r.spec_address() == self.spec_address(),
            r.spec_offset() < 0x100,
            r.spec_visited() === Seq::<u16>::empty(),
    {
        let pointer = self.capability_pointer(access);
        CapabilityIterator::new(self.0, pointer, access)
    }

    /// Resolves the BAR in `slot` (0..6) into a resource window. The raw
    /// value is read at offset 0x10 + 4 * slot; a memory BAR of a recognized
    /// width is then size-probed: all-ones are written to the slot, the
    /// result is read back, and the original raw value is written back at
    /// once, whatever was found. The caller must hold the function's
    /// configuration space exclusive for the probe's duration.
    ///
    /// A 64-bit BAR occupies two slots and is probed through its low slot
    /// only; this method must not be called on the slot holding the upper
    /// half.
    pub fn bar<T: ConfigRegionAccess>(&self, slot: u8, access: &T) -> (r: Result<
        Option<Bar>,
        BarError,
    >)
        requires
            slot < 6,
        ensures
            exists|raw: u32, readback: u32, upper: u32| r == spec_decode_bar(raw, readback, upper),
            r matches Ok(Some(bar)) ==> spec_bar_wf(bar),
    {
        let offset: u16 = 0x10 + (slot as u16) * 4;
        let raw = access.read(self.0, offset);
        if raw & 1 == 1 {
            let r = decode_bar(raw, 0, 0);
            proof {
                assert(r == spec_decode_bar(raw, 0, 0));
            }
            r
        } else {
            let width = (raw >> 1) & 3;
            if width != 0 && width != 2 {
                let r = decode_bar(raw, 0, 0);
                proof {
                    assert(r == spec_decode_bar(raw, 0, 0));
                }
                r
            } else {
                access.write(self.0, offset, 0xffff_ffff);
                let readback = access.read(self.0, offset);
                access.write(self.0, offset, raw);
                if readback == 0 {
                    let r = decode_bar(raw, 0, 0);
                    proof {
                        assert(r == spec_decode_bar(raw, 0, 0));
                    }
                    r
                } else if readback & 0xffff_fff0 == 0 {
                    let r = decode_bar(raw, readback, 0);
                    proof {
                        assert(r == spec_decode_bar(raw, readback, 0));
                    }
                    r
                } else if width == 2 {
                    let upper = access.read(self.0, offset + 4);
                    let r = decode_bar(raw, readback, upper);
                    proof {
                        assert(r == spec_decode_bar(raw, readback, upper));
                    }
                    r
                } else {
                    let r = decode_bar(raw, readback, 0);
                    proof {
                        assert(r == spec_decode_bar(raw, readback, 0));
                    }
                    r
                }
            }
        }
    }
}

} // verus!
