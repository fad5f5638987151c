//! Tests that drive the decoders through a mock configuration-space device.
use std::cell::RefCell;

use pci_types::Bar;
use pci_types::BarError;
use pci_types::CapabilityEntry;
use pci_types::ConfigRegionAccess;
use pci_types::EndpointHeader;
use pci_types::MalformedCapabilityList;
use pci_types::PciAddress;
use pci_types::PciHeader;
use pci_types::StatusRegister;
use pci_types::capability_pointer_for;
use pci_types::endpoint_for;

/// 256 bytes of configuration space with BAR probe semantics: a write to a
/// BAR slot keeps the slot's read-only flag bits and latches the written
/// value only in the slot's writable address bits, exactly as hardware
/// encodes the window size. Every access is logged.
struct MockDevice {
    regs: RefCell<[u32; 64]>,
    /// Writable address bits per BAR slot; 0 means the slot is hardwired.
    bar_mask: [u32; 6],
    reads: RefCell<Vec<u16>>,
    writes: RefCell<Vec<(u16, u32)>>,
}

impl MockDevice {
    fn new() -> MockDevice {
        MockDevice {
            regs: RefCell::new([0u32; 64]),
            bar_mask: [0u32; 6],
            reads: RefCell::new(Vec::new()),
            writes: RefCell::new(Vec::new()),
        }
    }

    fn set(&self, offset: u16, value: u32) {
        self.regs.borrow_mut()[(offset / 4) as usize] = value;
    }

    fn get(&self, offset: u16) -> u32 {
        self.regs.borrow()[(offset / 4) as usize]
    }

    fn read_count(&self, offset: u16) -> usize {
        self.reads.borrow().iter().filter(|&&o| o == offset).count()
    }
}

impl ConfigRegionAccess for MockDevice {
    fn function_exists(&self, _address: PciAddress) -> bool {
        true
    }

    fn read(&self, _address: PciAddress, offset: u16) -> u32 {
        self.reads.borrow_mut().push(offset);
        self.regs.borrow()[(offset / 4) as usize]
    }

    fn write(&self, _address: PciAddress, offset: u16, value: u32) {
        self.writes.borrow_mut().push((offset, value));
        let idx = (offset / 4) as usize;
        if (0x10..0x28).contains(&offset) {
            let slot = ((offset - 0x10) / 4) as usize;
            let mask = self.bar_mask[slot];
            let kept = self.regs.borrow()[idx] & !mask;
            self.regs.borrow_mut()[idx] = (value & mask) | kept;
        } else {
            self.regs.borrow_mut()[idx] = value;
        }
    }
}

fn addr() -> PciAddress {
    PciAddress::new(0, 0, 0, 0)
}

fn endpoint(device: &MockDevice) -> EndpointHeader {
    EndpointHeader::from_header(PciHeader::new(addr()), device).unwrap()
}

#[test]
fn header_reads_identity_and_class_words() {
    let device = MockDevice::new();
    device.set(0x00, 0x10de_8086);
    device.set(0x08, 0x0c03_4012);
    let header = PciHeader::new(addr());
    assert_eq!(header.id(&device), (0x8086, 0x10de));
    assert_eq!(header.revision_and_class(&device), (0x12, 0x0c, 0x03, 0x40));
}

#[test]
fn header_type_and_multi_function_flag() {
    let device = MockDevice::new();
    device.set(0x0c, 0x0081_0000);
    let header = PciHeader::new(addr());
    assert_eq!(header.header_type(&device), 0x01);
    assert!(header.has_multiple_functions(&device));
}

#[test]
fn header_status_is_the_upper_half_of_offset_four() {
    let device = MockDevice::new();
    device.set(0x04, 0x0010_ffff);
    let header = PciHeader::new(addr());
    assert!(header.status(&device).has_capability_list());
    assert_eq!(header.status(&device).bits(), 0x0010);
}

#[test]
fn endpoint_header_only_for_type_zero() {
    let device = MockDevice::new();
    device.set(0x0c, 0x0000_0000);
    assert!(EndpointHeader::from_header(PciHeader::new(addr()), &device).is_some());
    device.set(0x0c, 0x0001_0000);
    assert!(EndpointHeader::from_header(PciHeader::new(addr()), &device).is_none());
    device.set(0x0c, 0x0002_0000);
    assert!(EndpointHeader::from_header(PciHeader::new(addr()), &device).is_none());
}

#[test]
fn endpoint_decision_admits_exactly_header_type_zero() {
    let device = MockDevice::new();
    device.set(0x00, 0x10de_8086);
    assert!(endpoint_for(PciHeader::new(addr()), 0x00).is_some());
    assert!(endpoint_for(PciHeader::new(addr()), 0x01).is_none());
    assert!(endpoint_for(PciHeader::new(addr()), 0x02).is_none());
    assert!(endpoint_for(PciHeader::new(addr()), 0x7f).is_none());
    // the admitted endpoint wraps the header's own address
    let endpoint = endpoint_for(PciHeader::new(addr()), 0x00).unwrap();
    assert_eq!(endpoint.header().id(&device), (0x8086, 0x10de));
}

#[test]
fn endpoint_header_hands_back_its_header() {
    let device = MockDevice::new();
    device.set(0x00, 0xabcd_1234);
    let endpoint = endpoint(&device);
    assert_eq!(endpoint.header().id(&device), (0x1234, 0xabcd));
}

#[test]
fn unimplemented_bar_yields_absence() {
    let device = MockDevice::new();
    let endpoint = endpoint(&device);
    assert_eq!(endpoint.bar(0, &device), Ok(None));
}

#[test]
fn io_bar_is_returned_without_probing() {
    let device = MockDevice::new();
    device.set(0x10, (0x3f0 << 2) | 1);
    let endpoint = endpoint(&device);
    assert_eq!(endpoint.bar(0, &device), Ok(Some(Bar::Io { port: 0x3f0 })));
    assert!(device.writes.borrow().is_empty());
}

#[test]
fn memory32_bar_is_probed_and_restored() {
    let mut device = MockDevice::new();
    let raw = 0xfe00_0000 | 0x8;
    device.bar_mask[1] = 0xffff_0000;
    device.set(0x14, raw);
    let endpoint = endpoint(&device);
    assert_eq!(
        endpoint.bar(1, &device),
        Ok(Some(Bar::Memory32 { address: 0xfe00_0000, size: 0x1_0000, prefetchable: true }))
    );
    // the probe wrote all-ones, then put the original raw value back
    assert_eq!(*device.writes.borrow(), vec![(0x14, 0xffff_ffff), (0x14, raw)]);
    assert_eq!(device.get(0x14), raw);
}

#[test]
fn memory64_bar_reads_its_upper_half_from_the_next_slot() {
    let mut device = MockDevice::new();
    let raw = 0xe000_0000 | 0x4 | 0x8;
    device.bar_mask[0] = 0xfff0_0000;
    device.set(0x10, raw);
    device.set(0x14, 0x0000_0012);
    let endpoint = endpoint(&device);
    assert_eq!(
        endpoint.bar(0, &device),
        Ok(Some(Bar::Memory64 {
            address: 0x12_e000_0000,
            size: 0x10_0000,
            prefetchable: true
        }))
    );
    assert_eq!(device.get(0x10), raw);
}

#[test]
fn reserved_bar_memory_type_is_reported_not_probed() {
    let device = MockDevice::new();
    device.set(0x10, 0x0000_0002);
    let endpoint = endpoint(&device);
    assert_eq!(endpoint.bar(0, &device), Err(BarError::ReservedMemoryType));
    assert!(device.writes.borrow().is_empty());
}

#[test]
fn bar_probe_readback_without_address_bits_is_an_error() {
    let device = MockDevice::new();
    // flag bits read back, but no address bit is writable: no size encoded
    device.set(0x10, 0x0000_0008);
    let endpoint = endpoint(&device);
    assert_eq!(endpoint.bar(0, &device), Err(BarError::InvalidSizeReadback));
}

fn capability_device(entries: &[(u16, u32)]) -> MockDevice {
    let device = MockDevice::new();
    device.set(0x04, 0x0010_0000);
    for &(offset, word) in entries {
        device.set(offset, word);
    }
    device
}

#[test]
fn capability_list_yields_each_entry_in_order() {
    let device = capability_device(&[(0x40, 0x5001), (0x50, 0x6005), (0x60, 0x0010)]);
    device.set(0x34, 0x40);
    let endpoint = endpoint(&device);
    assert_eq!(endpoint.capability_pointer(&device), 0x40);
    let mut capabilities = endpoint.capabilities(&device);
    assert_eq!(
        capabilities.next_capability(),
        Ok(Some(CapabilityEntry { id: 0x01, offset: 0x40 }))
    );
    assert_eq!(
        capabilities.next_capability(),
        Ok(Some(CapabilityEntry { id: 0x05, offset: 0x50 }))
    );
    assert_eq!(
        capabilities.next_capability(),
        Ok(Some(CapabilityEntry { id: 0x10, offset: 0x60 }))
    );
    assert_eq!(capabilities.next_capability(), Ok(None));
    assert_eq!(capabilities.next_capability(), Ok(None));
}

#[test]
fn cyclic_capability_list_is_reported_as_malformed() {
    // the third entry points back at the first
    let device = capability_device(&[(0x40, 0x5001), (0x50, 0x6005), (0x60, 0x4010)]);
    device.set(0x34, 0x40);
    let endpoint = endpoint(&device);
    let mut capabilities = endpoint.capabilities(&device);
    assert!(capabilities.next_capability().unwrap().is_some());
    assert!(capabilities.next_capability().unwrap().is_some());
    assert!(capabilities.next_capability().unwrap().is_some());
    assert_eq!(capabilities.next_capability(), Err(MalformedCapabilityList));
}

#[test]
fn self_referential_capability_entry_is_reported_as_malformed() {
    let device = capability_device(&[(0x40, 0x4001)]);
    device.set(0x34, 0x40);
    let endpoint = endpoint(&device);
    let mut capabilities = endpoint.capabilities(&device);
    assert!(capabilities.next_capability().unwrap().is_some());
    assert_eq!(capabilities.next_capability(), Err(MalformedCapabilityList));
}

#[test]
fn capability_pointer_is_never_consulted_without_the_status_flag() {
    let device = MockDevice::new();
    // no capability-list flag, yet a tempting pointer value sits at 0x34
    device.set(0x34, 0x77);
    device.set(0x40, 0x5001);
    let endpoint = endpoint(&device);
    assert_eq!(endpoint.capability_pointer(&device), 0);
    let mut capabilities = endpoint.capabilities(&device);
    assert_eq!(capabilities.next_capability(), Ok(None));
    assert_eq!(device.read_count(0x34), 0);
    assert_eq!(device.read_count(0x40), 0);
}

#[test]
fn collected_capabilities_match_the_stepwise_walk() {
    let device = capability_device(&[(0x40, 0x5001), (0x50, 0x6005), (0x60, 0x0010)]);
    device.set(0x34, 0x40);
    let endpoint = endpoint(&device);
    let mut capabilities = endpoint.capabilities(&device);
    assert_eq!(
        capabilities.collect_capabilities(),
        Ok(vec![
            CapabilityEntry { id: 0x01, offset: 0x40 },
            CapabilityEntry { id: 0x05, offset: 0x50 },
            CapabilityEntry { id: 0x10, offset: 0x60 },
        ])
    );
}

#[test]
fn collecting_a_cyclic_capability_list_reports_malformed() {
    let device = capability_device(&[(0x40, 0x5001), (0x50, 0x6005), (0x60, 0x4010)]);
    device.set(0x34, 0x40);
    let endpoint = endpoint(&device);
    let mut capabilities = endpoint.capabilities(&device);
    assert_eq!(capabilities.collect_capabilities(), Err(MalformedCapabilityList));
}

#[test]
fn collecting_an_absent_capability_list_yields_nothing() {
    let device = MockDevice::new();
    let endpoint = endpoint(&device);
    let mut capabilities = endpoint.capabilities(&device);
    assert_eq!(capabilities.collect_capabilities(), Ok(vec![]));
}

#[test]
fn capability_pointer_value_ignores_the_word_without_the_flag() {
    let without = StatusRegister::new(0);
    let with = StatusRegister::new(1 << 4);
    assert_eq!(capability_pointer_for(without, 0xdead), 0);
    assert_eq!(capability_pointer_for(with, 0xdead), 0xad);
}
