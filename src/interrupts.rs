use vstd::prelude::*;

verus! {

/// Bit of the interrupt registers raised on vertical blank.
pub const VBLANK_INTERRUPT_BIT: u8 = 0;
/// Bit of the interrupt registers raised by the LCD status logic.
pub const LCD_STAT_INTERRUPT_BIT: u8 = 1;
/// Bit of the interrupt registers raised when the timer counter overflows.
pub const TIMER_INTERRUPT_BIT: u8 = 2;
/// Bit of the interrupt registers raised by the serial port.
pub const SERIAL_INTERRUPT_BIT: u8 = 3;
/// Bit of the interrupt registers raised by the joypad.
pub const JOYPAD_INTERRUPT_BIT: u8 = 4;

/// The interrupt-enable and interrupt-flag masks over the five sources.
#[derive(Clone, Copy, Debug, PartialEq, Eq, Structural)]
pub struct Interrupts {
    pub interrupt_enable: u8,
    pub interrupt_flag: u8,
}

/// The flag mask after source `bit` has been requested.
pub open spec fn flag_with(flag: u8, bit: u8) -> u8
    recommends
        bit < 5,
{
    flag | (1u8 << bit)
}

impl Interrupts {
    pub fn new() -> (r: Self)
        ensures
            r.interrupt_enable == 0,
            r.interrupt_flag == 0,
    {
        Interrupts { interrupt_enable: 0, interrupt_flag: 0 }
    }

    /// Sets the flag bit of source `bit`; nothing else changes.
    pub fn request_interrupt(&mut self, bit: u8)
        requires
            bit < 5,
        ensures
            final(self).interrupt_flag == flag_with(old(self).interrupt_flag, bit),
            final(self).interrupt_enable == old(self).interrupt_enable,
    {
        self.interrupt_flag = self.interrupt_flag | (1u8 << bit);
    }

    /// Whether the source `bit` is both enabled and flagged.
    pub fn is_deliverable(&self, bit: u8) -> (r: bool)
        requires
            bit < 5,
        ensures
            r == (self.interrupt_enable & (1u8 << bit) != 0 && self.interrupt_flag & (1u8 << bit)
                != 0),
    {
        self.interrupt_enable & (1u8 << bit) != 0 && self.interrupt_flag & (1u8 << bit) != 0
    }
}

/// Requesting a source twice leaves the same flags as requesting it once.
pub proof fn lemma_request_idempotent(flag: u8, bit: u8)
    requires
        bit < 5,
    ensures
        flag_with(flag_with(flag, bit), bit) == flag_with(flag, bit),
{
    assert((flag | (1u8 << bit)) | (1u8 << bit) == flag | (1u8 << bit)) by (bit_vector);
}

/// A requested source is flagged afterwards, and no other flag bit changes.
pub proof fn lemma_request_sets_only_its_bit(flag: u8, bit: u8, other: u8)
    requires
        bit < 5,
        other < 8,
        other != bit,
    ensures
        flag_with(flag, bit) & (1u8 << bit) != 0,
        flag_with(flag, bit) & (1u8 << other) == flag & (1u8 << other),
{
    assert((flag | (1u8 << bit)) & (1u8 << bit) != 0) by (bit_vector)
        requires
            bit < 5,
    ;
    assert((flag | (1u8 << bit)) & (1u8 << other) == flag & (1u8 << other)) by (bit_vector)
        requires
            bit < 5,
            other < 8,
            other != bit,
    ;
}

} // verus!
