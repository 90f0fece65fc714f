use dmg_core::instructions::Immediate16;
use dmg_core::machine::Machine;

fn booted() -> Machine {
    let mut m = Machine::new(false);
    m.write_u8(0xFF50, 1);
    m
}

#[test]
fn echo_region_mirrors_working_ram() {
    let mut m = Machine::new(false);
    m.write_u8(0xC123, 0x42);
    assert_eq!(m.read_u8(0xE123), 0x42);
    m.write_u8(0xDDFF, 0x99);
    assert_eq!(m.read_u8(0xFDFF), 0x99);
    m.write_u8(0xF010, 0x37);
    assert_eq!(m.read_u8(0xD010), 0x37);
    assert_eq!(m.ppu.wram_1[0x10], 0x37);
}

#[test]
fn boot_rom_overlay_until_disabled() {
    let mut m = Machine::new(false);
    m.memory.boot_rom[0x50] = 0x11;
    m.memory.bank_00[0x50] = 0x22;
    m.memory.bank_00[0x100] = 0x33;
    assert!(m.is_dmg_boot_rom_on());
    assert_eq!(m.read_u8(0x0050), 0x11);
    assert_eq!(m.read_u8(0x0100), 0x33);
    m.write_u8(0xFF50, 0x01);
    assert!(!m.is_dmg_boot_rom_on());
    assert_eq!(m.read_u8(0x0050), 0x22);
    assert_eq!(m.read_u8(0xFF50), 0x01);
}

#[test]
fn rom_banks_are_rebased() {
    let mut m = booted();
    m.memory.bank_00[0x3FFF] = 1;
    m.memory.bank_01[0] = 2;
    m.memory.bank_01[0x3FFF] = 3;
    assert_eq!(m.read_u8(0x3FFF), 1);
    assert_eq!(m.read_u8(0x4000), 2);
    assert_eq!(m.read_u8(0x7FFF), 3);
}

#[test]
fn rom_writes_have_no_effect() {
    let mut m = booted();
    m.memory.bank_00[0x2000] = 5;
    m.write_u8(0x2000, 9);
    m.write_u8(0x4000, 9);
    assert_eq!(m.read_u8(0x2000), 5);
    assert_eq!(m.read_u8(0x4000), 0);
}

#[test]
fn ram_regions_are_rebased() {
    let mut m = Machine::new(false);
    m.write_u8(0x8000, 1);
    m.write_u8(0x9FFF, 2);
    m.write_u8(0xA000, 3);
    m.write_u8(0xBFFF, 4);
    m.write_u8(0xC000, 5);
    m.write_u8(0xD000, 6);
    m.write_u8(0xFF80, 7);
    m.write_u8(0xFFFE, 8);
    assert_eq!(m.ppu.vram[0], 1);
    assert_eq!(m.ppu.vram[0x1FFF], 2);
    assert_eq!(m.external_ram[0], 3);
    assert_eq!(m.external_ram[0x1FFF], 4);
    assert_eq!(m.ppu.wram_0[0], 5);
    assert_eq!(m.ppu.wram_1[0], 6);
    assert_eq!(m.memory.hram[0], 7);
    assert_eq!(m.memory.hram[0x7E], 8);
    for (a, v) in [(0x8000u16, 1u8), (0x9FFF, 2), (0xA000, 3), (0xBFFF, 4), (0xC000, 5), (0xD000, 6), (0xFF80, 7), (0xFFFE, 8)] {
        assert_eq!(m.read_u8(a), v);
    }
}

#[test]
fn io_registers_store_and_return() {
    let mut m = Machine::new(false);
    let regs: [u16; 17] = [
        0xFF00, 0xFF01, 0xFF02, 0xFF0F, 0xFF11, 0xFF12, 0xFF13, 0xFF14, 0xFF24, 0xFF25, 0xFF26,
        0xFF40, 0xFF42, 0xFF43, 0xFF47, 0xFFFF, 0xFF06,
    ];
    for (k, a) in regs.iter().enumerate() {
        m.write_u8(*a, 0x30 + k as u8);
    }
    for (k, a) in regs.iter().enumerate() {
        assert_eq!(m.read_u8(*a), 0x30 + k as u8);
    }
    assert_eq!(m.ppu.scy, 0x30 + 12);
    assert_eq!(m.ppu.scx, 0x30 + 13);
    assert_eq!(m.ppu.lcd_control, 0x30 + 11);
    assert_eq!(m.interrupts.interrupt_enable, 0x30 + 15);
}

#[test]
fn scanline_read_honours_override() {
    let mut m = Machine::new(false);
    m.ppu.ly = 0x12;
    assert_eq!(m.read_u8(0xFF44), 0x12);
    let mut f = Machine::new(true);
    f.ppu.ly = 0x12;
    assert_eq!(f.read_u8(0xFF44), 0x90);
}

#[test]
fn read_range_reads_consecutive_bytes() {
    let mut m = Machine::new(false);
    for k in 0..4u16 {
        m.write_u8(0xC000 + k, k as u8 + 1);
    }
    assert_eq!(m.read_range(0xC000, 4), vec![1, 2, 3, 4]);
    assert_eq!(m.read_range(0xC000, 0), Vec::<u8>::new());
}

#[test]
fn read_range_saturates_at_top_of_address_space() {
    let m = Machine::new(false);
    assert_eq!(m.read_range(0xFFFA, 10).len(), 5);
    assert_eq!(m.read_range(0xFF80, 0x10000 + 2).len(), 2);
}

#[test]
fn show_memory_row_formats_eight_bytes() {
    let mut m = Machine::new(false);
    let bytes = [0x01u8, 0xAB, 0x00, 0xFF, 0x10, 0x9C, 0x7E, 0x05];
    for (k, b) in bytes.iter().enumerate() {
        m.write_u8(0xC0A0 + k as u16, *b);
    }
    assert_eq!(m.show_memory_row(0xC0A0), "c0a0: 01 AB 00 FF  10 9C 7E 05");
}

#[test]
fn immediate16_round_trips() {
    let i = Immediate16::from_u16(0xBEEF);
    assert_eq!(i.lower_byte, 0xEF);
    assert_eq!(i.higher_byte, 0xBE);
    assert_eq!(i.as_u16(), 0xBEEF);
}

#[test]
fn immediate16_from_memory_is_lower_byte_first() {
    let mut m = Machine::new(false);
    m.write_u8(0xC010, 0x34);
    m.write_u8(0xC011, 0x12);
    let i = Immediate16::from_memory(&m, 0xC010);
    assert_eq!(i.as_u16(), 0x1234);
}

#[test]
fn writing_zero_to_boot_latch_disables_overlay() {
    let mut m = Machine::new(false);
    m.memory.boot_rom[0x50] = 0x11;
    m.memory.bank_00[0x50] = 0x22;
    m.write_u8(0xFF50, 0);
    assert!(!m.is_dmg_boot_rom_on());
    assert_eq!(m.read_u8(0x0050), 0x22);
    assert_eq!(m.read_u8(0xFF50), 0);
}

#[test]
fn boot_overlay_stays_off_after_later_latch_writes() {
    let mut m = Machine::new(false);
    m.memory.boot_rom[0x50] = 0x11;
    m.memory.bank_00[0x50] = 0x22;
    m.write_u8(0xFF50, 1);
    m.write_u8(0xFF50, 0);
    assert!(!m.is_dmg_boot_rom_on());
    assert_eq!(m.read_u8(0x0050), 0x22);
    // the ROM region below 0x100 is now cartridge ROM, so a write there is routed and ignored
    m.write_u8(0x0050, 0x77);
    assert_eq!(m.read_u8(0x0050), 0x22);
}
