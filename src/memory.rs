use vstd::prelude::*;

verus! {

/// Size of the boot ROM overlay (bus 0x0000..=0x00FF).
pub const BOOT_ROM_SIZE: usize = 0x100;
/// Size of each of the two fixed cartridge ROM banks.
pub const ROM_BANK_SIZE: usize = 0x4000;
/// Size of high RAM (bus 0xFF80..=0xFFFE).
pub const HRAM_SIZE: usize = 0x7F;

/// The boot ROM, the two fixed cartridge ROM banks and high RAM.
#[derive(Clone, Debug)]
pub struct Memory {
    pub boot_rom: Vec<u8>,
    pub bank_00: Vec<u8>,
    pub bank_01: Vec<u8>,
    pub hram: Vec<u8>,
}

/// The contents of a [`Memory`] as mathematical values.
pub ghost struct MemoryView {
    pub boot_rom: Seq<u8>,
    pub bank_00: Seq<u8>,
    pub bank_01: Seq<u8>,
    pub hram: Seq<u8>,
}

impl MemoryView {
    pub open spec fn wf(self) -> bool {
        &&& self.boot_rom.len() == BOOT_ROM_SIZE
        &&& self.bank_00.len() == ROM_BANK_SIZE
        &&& self.bank_01.len() == ROM_BANK_SIZE
        &&& self.hram.len() == HRAM_SIZE
    }
}

impl View for Memory {
    type V = MemoryView;

    open spec fn view(&self) -> MemoryView {
        MemoryView {
            boot_rom: self.boot_rom@,
            bank_00: self.bank_00@,
            bank_01: self.bank_01@,
            hram: self.hram@,
        }
    }
}

impl Memory {
    /// Zero-filled storage of the right sizes.
    pub fn new() -> (r: Self)
        ensures
            r@.wf(),
            r@.boot_rom == Seq::new(BOOT_ROM_SIZE as nat, |i: int| 0u8),
            r@.bank_00 == Seq::new(ROM_BANK_SIZE as nat, |i: int| 0u8),
            r@.bank_01 == Seq::new(ROM_BANK_SIZE as nat, |i: int| 0u8),
            r@.hram == Seq::new(HRAM_SIZE as nat, |i: int| 0u8),
    {
        let r = Memory {
            boot_rom: vec![0u8; BOOT_ROM_SIZE],
            bank_00: vec![0u8; ROM_BANK_SIZE],
            bank_01: vec![0u8; ROM_BANK_SIZE],
            hram: vec![0u8; HRAM_SIZE],
        };
        assert(r@.boot_rom =~= Seq::new(BOOT_ROM_SIZE as nat, |i: int| 0u8));
        assert(r@.bank_00 =~= Seq::new(ROM_BANK_SIZE as nat, |i: int| 0u8));
        assert(r@.bank_01 =~= Seq::new(ROM_BANK_SIZE as nat, |i: int| 0u8));
        assert(r@.hram =~= Seq::new(HRAM_SIZE as nat, |i: int| 0u8));
        r
    }
}

} // verus!
