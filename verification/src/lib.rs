//! Decoders for the PCI/PCIe configuration space: a packed address key for
//! (segment, bus, device, function) locations, bit-exact register and header
//! decoders, the Base Address Register size-probe algorithm, and a guarded
//! walk of the capability list. The physical read/write of configuration
//! space is delegated to a caller-supplied [`ConfigRegionAccess`].
use vstd::prelude::*;

mod address;
mod capability;
mod endpoint;
mod header;
mod register;

pub use endpoint::Bar;
pub use endpoint::BarError;
pub use endpoint::EndpointHeader;
pub use endpoint::capability_pointer_for;
pub use endpoint::decode_bar;
pub use endpoint::endpoint_for;
pub use endpoint::lemma_decoded_bar_well_formed;
pub use endpoint::spec_bar_wf;
pub use endpoint::spec_decode_bar;

pub use capability::CapabilityEntry;
pub use capability::CapabilityIterator;
pub use capability::MalformedCapabilityList;
pub use capability::decode_capability_header;
pub use capability::spec_capability_id_of;
pub use capability::spec_capability_next_of;
pub use capability::spec_offsets_of;

pub use header::PciHeader;
pub use header::decode_header_type;
pub use header::decode_id;
pub use header::decode_multiple_functions;
pub use header::decode_revision_and_class;
pub use header::decode_status;
pub use header::spec_base_class_of;
pub use header::spec_device_of;
pub use header::spec_header_type_of;
pub use header::spec_interface_of;
pub use header::spec_multiple_functions_of;
pub use header::spec_revision_of;
pub use header::spec_status_bits_of;
pub use header::spec_sub_class_of;
pub use header::spec_vendor_of;
pub use register::DevselTiming;
pub use register::StatusRegister;
pub use address::AddressSpaceExhausted;
pub use address::PciAddress;
pub use address::bus_of;
pub use address::dev_of;
pub use address::fun_of;
pub use address::lemma_key_order_lexicographic;
pub use address::lemma_pack_round_trip;
pub use address::seg_of;
pub use address::spec_pack;

verus! {

pub type VendorId = u16;

pub type DeviceId = u16;

pub type DeviceRevision = u8;

pub type BaseClass = u8;

pub type SubClass = u8;

pub type Interface = u8;

pub type HeaderType = u8;

pub const HEADER_TYPE_ENDPOINT: HeaderType = 0x00;

pub const HEADER_TYPE_PCI_PCI_BRIDGE: HeaderType = 0x01;

pub const HEADER_TYPE_CARDBUS_BRIDGE: HeaderType = 0x02;

pub const MAX_BARS: usize = 6;

/// The caller-supplied capability that performs the physical configuration
/// space accesses. Reads and writes go to live hardware, so nothing is
/// promised of the values read: two reads of the same offset may differ
/// (the BAR size probe depends on exactly that).
pub trait ConfigRegionAccess: Send {
    fn function_exists(&self, address: PciAddress) -> bool;

    fn read(&self, address: PciAddress, offset: u16) -> u32;

    fn write(&self, address: PciAddress, offset: u16, value: u32);
}

} // verus!
