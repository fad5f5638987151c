//! Pure decoders over raw register words.
use vstd::prelude::*;

verus! {

/// The device-select timing sub-field of the status register (bits 9..11).
/// Every bit pattern is representable: the encoding 0b11 is decoded as
/// `Reserved`, never rejected.
#[derive(Clone, Copy, PartialEq, Eq, Structural, Debug)]
pub enum DevselTiming {
    Fast,
    Medium,
    Slow,
    Reserved,
}

/// The 16-bit status register (the upper half of the word at offset 0x04),
/// with the bit layout of the PCI 3.0 specification. Reserved bits are
/// ignored; no bit pattern is an error.
#[derive(Clone, Copy, PartialEq, Eq, Structural, Debug)]
pub struct StatusRegister(u16);

impl StatusRegister {
    /// The raw 16 status bits.
    pub closed spec fn spec_bits(&self) -> u16 {
        self.0
    }

    pub open spec fn spec_interrupt_status(&self) -> bool {
        (self.spec_bits() >> 3) & 1 == 1
    }

    pub open spec fn spec_has_capability_list(&self) -> bool {
        (self.spec_bits() >> 4) & 1 == 1
    }

    pub open spec fn spec_capable_66mhz(&self) -> bool {
        (self.spec_bits() >> 5) & 1 == 1
    }

    pub open spec fn spec_fast_back_to_back_capable(&self) -> bool {
        (self.spec_bits() >> 7) & 1 == 1
    }

    pub open spec fn spec_master_data_parity_error(&self) -> bool {
        (self.spec_bits() >> 8) & 1 == 1
    }

    pub open spec fn spec_devsel_timing(&self) -> DevselTiming {
        let bits = (self.spec_bits() >> 9) & 3;
        if bits == 0 {
            DevselTiming::Fast
        } else if bits == 1 {
            DevselTiming::Medium
        } else if bits == 2 {
            DevselTiming::Slow
        } else {
            DevselTiming::Reserved
        }
    }

    pub open spec fn spec_signalled_target_abort(&self) -> bool {
        (self.spec_bits() >> 11) & 1 == 1
    }

    pub open spec fn spec_received_target_abort(&self) -> bool {
        (self.spec_bits() >> 12) & 1 == 1
    }

    pub open spec fn spec_received_master_abort(&self) -> bool {
        (self.spec_bits() >> 13) & 1 == 1
    }

    pub open spec fn spec_signalled_system_error(&self) -> bool {
        (self.spec_bits() >> 14) & 1 == 1
    }

    pub open spec fn spec_parity_error_detected(&self) -> bool {
        (self.spec_bits() >> 15) & 1 == 1
    }

    pub fn new(value: u16) -> (r: StatusRegister)
        ensures
            r.spec_bits() == value,
    {
        StatusRegister(value)
    }

    /// The raw 16 status bits.
    pub fn bits(&self) -> (r: u16)
        ensures
            r == self.spec_bits(),
    {
        self.0
    }

    /// Bit 3: an interrupt is pending.
    pub fn interrupt_status(&self) -> (r: bool)
        ensures
            r == self.spec_interrupt_status(),
    {
        (self.0 >> 3) & 1 == 1
    }

    /// Bit 4: the function carries a capability list rooted at offset 0x34.
    pub fn has_capability_list(&self) -> (r: bool)
        ensures
            r == self.spec_has_capability_list(),
    {
        (self.0 >> 4) & 1 == 1
    }

    /// Bit 5: the function is capable of running at 66 MHz.
    pub fn capable_66mhz(&self) -> (r: bool)
        ensures
            r == self.spec_capable_66mhz(),
    {
        (self.0 >> 5) & 1 == 1
    }

    /// Bit 7: the target is capable of fast back-to-back transactions.
    pub fn fast_back_to_back_capable(&self) -> (r: bool)
        ensures
            r == self.spec_fast_back_to_back_capable(),
    {
        (self.0 >> 7) & 1 == 1
    }

    /// Bit 8: the master observed a data parity error.
    pub fn master_data_parity_error(&self) -> (r: bool)
        ensures
            r == self.spec_master_data_parity_error(),
    {
        (self.0 >> 8) & 1 == 1
    }

    /// Bits 9..11: the device-select timing.
    pub fn devsel_timing(&self) -> (r: DevselTiming)
        ensures
            r == self.spec_devsel_timing(),
    {
        let bits = (self.0 >> 9) & 3;
        if bits == 0 {
            DevselTiming::Fast
        } else if bits == 1 {
            DevselTiming::Medium
        } else if bits == 2 {
            DevselTiming::Slow
        } else {
            DevselTiming::Reserved
        }
    }

    /// Bit 11: the target signalled an abort.
    pub fn signalled_target_abort(&self) -> (r: bool)
        ensures
            r == self.spec_signalled_target_abort(),
    {
        (self.0 >> 11) & 1 == 1
    }

    /// Bit 12: the master received a target abort.
    pub fn received_target_abort(&self) -> (r: bool)
        ensures
            r == self.spec_received_target_abort(),
    {
        (self.0 >> 12) & 1 == 1
    }

    /// Bit 13: the master received a master abort.
    pub fn received_master_abort(&self) -> (r: bool)
        ensures
            r == self.spec_received_master_abort(),
    {
        (self.0 >> 13) & 1 == 1
    }

    /// Bit 14: the function signalled a system error.
    pub fn signalled_system_error(&self) -> (r: bool)
        ensures
            r == self.spec_signalled_system_error(),
    {
        (self.0 >> 14) & 1 == 1
    }

    /// Bit 15: the function detected a parity error.
    pub fn parity_error_detected(&self) -> (r: bool)
        ensures
            r == self.spec_parity_error_detected(),
    {
        (self.0 >> 15) & 1 == 1
    }
}

} // verus!
