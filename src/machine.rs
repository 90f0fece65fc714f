use vstd::prelude::*;
use crate::interrupts::{Interrupts, flag_with};
use crate::memory::{Memory, MemoryView};
use crate::ppu::{AddressingMode, Ppu, PpuView};
use crate::timers::Timers;

verus! {

/// Size of the cartridge's external RAM (bus 0xA000..=0xBFFF).
pub const EXTERNAL_RAM_SIZE: usize = 0x2000;
/// What a scanline read returns while the conformance-log override is on.
pub const FIXED_LY_VALUE: u8 = 0x90;

/// The whole machine: every subsystem, reached through the bus.
#[derive(Clone, Debug)]
pub struct Machine {
    /// When set, reads of the scanline register return a fixed value.
    pub fix_ly_for_gb_doctor: bool,
    pub joypad: u8,
    pub memory: Memory,
    pub timers: Timers,
    pub interrupts: Interrupts,
    pub ppu: Ppu,
    pub external_ram: Vec<u8>,
    pub bgp: u8,
    /// The last value written to the boot-ROM latch, kept for read-back.
    pub dmg_boot_rom: u8,
    /// Set by any write to the boot-ROM latch; the overlay is off from then on.
    pub boot_rom_disabled: bool,
    pub nr11: u8,
    pub nr12: u8,
    pub nr13: u8,
    pub nr14: u8,
    pub nr50: u8,
    pub nr51: u8,
    pub nr52: u8,
    pub sb: u8,
    pub sc: u8,
}

/// The contents of a [`Machine`] as mathematical values.
pub ghost struct MachineView {
    pub fix_ly_for_gb_doctor: bool,
    pub joypad: u8,
    pub memory: MemoryView,
    pub timers: Timers,
    pub interrupts: Interrupts,
    pub ppu: PpuView,
    pub external_ram: Seq<u8>,
    pub bgp: u8,
    pub dmg_boot_rom: u8,
    pub boot_rom_disabled: bool,
    pub nr11: u8,
    pub nr12: u8,
    pub nr13: u8,
    pub nr14: u8,
    pub nr50: u8,
    pub nr51: u8,
    pub nr52: u8,
    pub sb: u8,
    pub sc: u8,
}

impl View for Machine {
    type V = MachineView;

    open spec fn view(&self) -> MachineView {
        MachineView {
            fix_ly_for_gb_doctor: self.fix_ly_for_gb_doctor,
            joypad: self.joypad,
            memory: self.memory@,
            timers: self.timers,
            interrupts: self.interrupts,
            ppu: self.ppu@,
            external_ram: self.external_ram@,
            bgp: self.bgp,
            dmg_boot_rom: self.dmg_boot_rom,
            boot_rom_disabled: self.boot_rom_disabled,
            nr11: self.nr11,
            nr12: self.nr12,
            nr13: self.nr13,
            nr14: self.nr14,
            nr50: self.nr50,
            nr51: self.nr51,
            nr52: self.nr52,
            sb: self.sb,
            sc: self.sc,
        }
    }
}

/// The I/O and high addresses that both reads and writes route somewhere.
pub open spec fn is_mapped_register(a: u16) -> bool {
    ||| a == 0xFF00
    ||| a == 0xFF01
    ||| a == 0xFF02
    ||| 0xFF04 <= a <= 0xFF07
    ||| a == 0xFF0F
    ||| 0xFF11 <= a <= 0xFF14
    ||| 0xFF24 <= a <= 0xFF26
    ||| a == 0xFF40
    ||| a == 0xFF42
    ||| a == 0xFF43
    ||| a == 0xFF47
    ||| a == 0xFF50
    ||| a >= 0xFF80
}

/// Addresses that a read routes somewhere.
pub open spec fn is_readable(a: u16) -> bool {
    a <= 0xFDFF || is_mapped_register(a) || a == 0xFF44
}

impl MachineView {
    pub open spec fn wf(self) -> bool {
        &&& self.memory.wf()
        &&& self.ppu.wf()
        &&& self.timers.wf()
        &&& self.external_ram.len() == EXTERNAL_RAM_SIZE
    }

    pub open spec fn boot_rom_on(self) -> bool {
        !self.boot_rom_disabled
    }

    /// Addresses that a write routes somewhere: not the boot ROM while it is
    /// mapped, and not the read-only scanline register.
    pub open spec fn is_writable(self, a: u16) -> bool {
        !(self.boot_rom_on() && a <= 0xFF) && (a <= 0xFDFF || is_mapped_register(a))
    }

    /// The byte that a read of address `a` returns.
    pub open spec fn read(self, a: u16) -> u8 {
        if self.boot_rom_on() && a <= 0xFF {
            self.memory.boot_rom[a as int]
        } else if a <= 0x3FFF {
            self.memory.bank_00[a as int]
        } else if a <= 0x7FFF {
            self.memory.bank_01[a - 0x4000]
        } else if a <= 0x9FFF {
            self.ppu.vram[a - 0x8000]
        } else if a <= 0xBFFF {
            self.external_ram[a - 0xA000]
        } else if a <= 0xCFFF {
            self.ppu.wram_0[a - 0xC000]
        } else if a <= 0xDFFF {
            self.ppu.wram_1[a - 0xD000]
        } else if a <= 0xEFFF {
            // echo of working RAM bank 0
            self.ppu.wram_0[a - 0xE000]
        } else if a <= 0xFDFF {
            // echo of working RAM bank 1
            self.ppu.wram_1[a - 0xF000]
        } else if a == 0xFF00 {
            self.joypad
        } else if a == 0xFF01 {
            self.sb
        } else if a == 0xFF02 {
            self.sc
        } else if 0xFF04 <= a <= 0xFF07 {
            self.timers.read_spec(a)
        } else if a == 0xFF0F {
            self.interrupts.interrupt_flag
        } else if a == 0xFF11 {
            self.nr11
        } else if a == 0xFF12 {
            self.nr12
        } else if a == 0xFF13 {
            self.nr13
        } else if a == 0xFF14 {
            self.nr14
        } else if a == 0xFF24 {
            self.nr50
        } else if a == 0xFF25 {
            self.nr51
        } else if a == 0xFF26 {
            self.nr52
        } else if a == 0xFF40 {
            self.ppu.lcd_control
        } else if a == 0xFF42 {
            self.ppu.scy
        } else if a == 0xFF43 {
            self.ppu.scx
        } else if a == 0xFF44 {
            if self.fix_ly_for_gb_doctor {
                FIXED_LY_VALUE
            } else {
                self.ppu.ly
            }
        } else if a == 0xFF47 {
            self.bgp
        } else if a == 0xFF50 {
            self.dmg_boot_rom
        } else if a <= 0xFFFE {
            self.memory.hram[a - 0xFF80]
        } else {
            self.interrupts.interrupt_enable
        }
    }

    /// The machine after a write of `v` to address `a`.
    pub open spec fn write(self, a: u16, v: u8) -> MachineView {
        if a <= 0x7FFF {
            // cartridge ROM; no bank controller is modelled
            self
        } else if a <= 0x9FFF {
            MachineView { ppu: PpuView { vram: self.ppu.vram.update(a - 0x8000, v), ..self.ppu }, ..self }
        } else if a <= 0xBFFF {
            MachineView { external_ram: self.external_ram.update(a - 0xA000, v), ..self }
        } else if a <= 0xCFFF {
            MachineView { ppu: PpuView { wram_0: self.ppu.wram_0.update(a - 0xC000, v), ..self.ppu }, ..self }
        } else if a <= 0xDFFF {
            MachineView { ppu: PpuView { wram_1: self.ppu.wram_1.update(a - 0xD000, v), ..self.ppu }, ..self }
        } else if a <= 0xEFFF {
            MachineView { ppu: PpuView { wram_0: self.ppu.wram_0.update(a - 0xE000, v), ..self.ppu }, ..self }
        } else if a <= 0xFDFF {
            MachineView { ppu: PpuView { wram_1: self.ppu.wram_1.update(a - 0xF000, v), ..self.ppu }, ..self }
        } else if a == 0xFF00 {
            MachineView { joypad: v, ..self }
        } else if a == 0xFF01 {
            MachineView { sb: v, ..self }
        } else if a == 0xFF02 {
            MachineView { sc: v, ..self }
        } else if 0xFF04 <= a <= 0xFF07 {
            MachineView { timers: self.timers.write_spec(a, v), ..self }
        } else if a == 0xFF0F {
            MachineView { interrupts: Interrupts { interrupt_flag: v, ..self.interrupts }, ..self }
        } else if a == 0xFF11 {
            MachineView { nr11: v, ..self }
        } else if a == 0xFF12 {
            MachineView { nr12: v, ..self }
        } else if a == 0xFF13 {
            MachineView { nr13: v, ..self }
        } else if a == 0xFF14 {
            MachineView { nr14: v, ..self }
        } else if a == 0xFF24 {
            MachineView { nr50: v, ..self }
        } else if a == 0xFF25 {
            MachineView { nr51: v, ..self }
        } else if a == 0xFF26 {
            MachineView { nr52: v, ..self }
        } else if a == 0xFF40 {
            MachineView { ppu: PpuView { lcd_control: v, ..self.ppu }, ..self }
        } else if a == 0xFF42 {
            MachineView { ppu: PpuView { scy: v, ..self.ppu }, ..self }
        } else if a == 0xFF43 {
            MachineView { ppu: PpuView { scx: v, ..self.ppu }, ..self }
        } else if a == 0xFF47 {
            MachineView { bgp: v, ..self }
        } else if a == 0xFF50 {
            MachineView { dmg_boot_rom: v, boot_rom_disabled: true, ..self }
        } else if a <= 0xFFFE {
            MachineView { memory: MemoryView { hram: self.memory.hram.update(a - 0xFF80, v), ..self.memory }, ..self }
        } else {
            MachineView { interrupts: Interrupts { interrupt_enable: v, ..self.interrupts }, ..self }
        }
    }
}

/// One past the last address that `read_range` reads: `size` is taken modulo
/// 2^16 and the end saturates at 0xFFFF.
pub open spec fn range_end(address: u16, size: usize) -> int {
    let s = size as int % 0x10000;
    if address + s > 0xFFFF {
        0xFFFF
    } else {
        address + s
    }
}

/// Hex digit of `n` (below 16), in upper or lower case.
pub open spec fn hex_digit(n: int, upper: bool) -> char {
    if upper {
        seq!['0', '1', '2', '3', '4', '5', '6', '7', '8', '9', 'A', 'B', 'C', 'D', 'E', 'F'][n]
    } else {
        seq!['0', '1', '2', '3', '4', '5', '6', '7', '8', '9', 'a', 'b', 'c', 'd', 'e', 'f'][n]
    }
}

/// A byte as two upper-case hex digits.
pub open spec fn hex_byte(b: u8) -> Seq<char> {
    seq![hex_digit(b as int / 16, true), hex_digit(b as int % 16, true)]
}

/// An address as four lower-case hex digits.
pub open spec fn hex_address(a: u16) -> Seq<char> {
    seq![
        hex_digit(a as int / 4096, false),
        hex_digit((a as int / 256) % 16, false),
        hex_digit((a as int / 16) % 16, false),
        hex_digit(a as int % 16, false),
    ]
}

/// `aaaa: B0 B1 B2 B3  B4 B5 B6 B7`: an address and the eight bytes from it.
pub open spec fn memory_row_text(from: u16, b: Seq<u8>) -> Seq<char> {
    hex_address(from) + seq![':'] + seq![' '] + hex_byte(b[0]) + seq![' '] + hex_byte(b[1])
        + seq![' '] + hex_byte(b[2]) + seq![' '] + hex_byte(b[3]) + seq![' ', ' '] + hex_byte(b[4])
        + seq![' '] + hex_byte(b[5]) + seq![' '] + hex_byte(b[6]) + seq![' '] + hex_byte(b[7])
}

/// Relies on std's `format!`: `{:04x}` writes a `u16` as four lower-case hex
/// digits and `{:02X}` a `u8` as two upper-case ones, zero-padded.
#[verifier::external_body]
fn format_memory_row(from: u16, b: &Vec<u8>) -> (r: String)
    requires
        b@.len() == 8,
    ensures
        r@ == memory_row_text(from, b@),
{
    format!(
        "{:04x}: {:02X} {:02X} {:02X} {:02X}  {:02X} {:02X} {:02X} {:02X}",
        from, b[0], b[1], b[2], b[3], b[4], b[5], b[6], b[7]
    )
}

impl Machine {
    /// A machine with every register and every memory zeroed, so with the
    /// boot ROM overlay active.
    pub fn new(fix_ly: bool) -> (r: Self)
        ensures
            r@.wf(),
            r@.fix_ly_for_gb_doctor == fix_ly,
            r@.boot_rom_on(),
            r@.timers == Timers::new_spec(),
            r@.interrupts == (Interrupts { interrupt_enable: 0, interrupt_flag: 0 }),
            r@.external_ram == Seq::new(EXTERNAL_RAM_SIZE as nat, |i: int| 0u8),
            r@.ppu.vram == Seq::new(0x2000, |i: int| 0u8),
            r@.ppu.wram_0 == Seq::new(0x1000, |i: int| 0u8),
            r@.ppu.wram_1 == Seq::new(0x1000, |i: int| 0u8),
            r@.ppu.tile_map0_modes == Seq::new(0x400, |i: int| AddressingMode::Signed),
            r@.ppu.tile_map1_modes == Seq::new(0x400, |i: int| AddressingMode::Signed),
            r@.dmg_boot_rom == 0,
            r@.ppu.lcd_control == 0 && r@.ppu.ly == 0 && r@.ppu.scx == 0 && r@.ppu.scy == 0,
            r@.memory.boot_rom == Seq::new(0x100, |i: int| 0u8),
            r@.memory.bank_00 == Seq::new(0x4000, |i: int| 0u8),
            r@.memory.bank_01 == Seq::new(0x4000, |i: int| 0u8),
            r@.memory.hram == Seq::new(0x7F, |i: int| 0u8),
            r@.joypad == 0 && r@.bgp == 0 && r@.sb == 0 && r@.sc == 0,
            r@.nr11 == 0 && r@.nr12 == 0 && r@.nr13 == 0 && r@.nr14 == 0,
            r@.nr50 == 0 && r@.nr51 == 0 && r@.nr52 == 0,
    {
        let r = Machine {
            fix_ly_for_gb_doctor: fix_ly,
            joypad: 0,
            memory: Memory::new(),
            timers: Timers::new(),
            interrupts: Interrupts::new(),
            ppu: Ppu::new(),
            external_ram: vec![0u8; EXTERNAL_RAM_SIZE],
            bgp: 0,
            dmg_boot_rom: 0,
            boot_rom_disabled: false,
            nr11: 0,
            nr12: 0,
            nr13: 0,
            nr14: 0,
            nr50: 0,
            nr51: 0,
            nr52: 0,
            sb: 0,
            sc: 0,
        };
        assert(r@.external_ram =~= Seq::new(EXTERNAL_RAM_SIZE as nat, |i: int| 0u8));
        r
    }

    /// Whether the boot ROM overlays addresses 0x0000..=0x00FF.
    pub fn is_dmg_boot_rom_on(&self) -> (r: bool)
        ensures
            r == self@.boot_rom_on(),
    {
        !self.boot_rom_disabled
    }

    /// Reads one byte through the bus.
    pub fn read_u8(&self, address: u16) -> (r: u8)
        requires
            self@.wf(),
            is_readable(address),
        ensures
            r == self@.read(address),
        decreases address,
    {
        let a = address;
        if self.is_dmg_boot_rom_on() && a <= 0xFF {
            return self.memory.boot_rom[a as usize];
        }
        if a <= 0x3FFF {
            self.memory.bank_00[a as usize]
        } else if a <= 0x7FFF {
            self.memory.bank_01[(a - 0x4000) as usize]
        } else if a <= 0x9FFF {
            self.ppu.vram[(a - 0x8000) as usize]
        } else if a <= 0xBFFF {
            self.external_ram[(a - 0xA000) as usize]
        } else if a <= 0xCFFF {
            self.ppu.wram_0[(a - 0xC000) as usize]
        } else if a <= 0xDFFF {
            self.ppu.wram_1[(a - 0xD000) as usize]
        } else if a <= 0xFDFF {
            // echo of working RAM
            self.read_u8(a - 0x2000)
        } else if a == 0xFF00 {
            self.joypad
        } else if a == 0xFF01 {
            self.sb
        } else if a == 0xFF02 {
            self.sc
        } else if 0xFF04 <= a && a <= 0xFF07 {
            self.timers.read_u8(a)
        } else if a == 0xFF0F {
            self.interrupts.interrupt_flag
        } else if a == 0xFF11 {
            self.nr11
        } else if a == 0xFF12 {
            self.nr12
        } else if a == 0xFF13 {
            self.nr13
        } else if a == 0xFF14 {
            self.nr14
        } else if a == 0xFF24 {
            self.nr50
        } else if a == 0xFF25 {
            self.nr51
        } else if a == 0xFF26 {
            self.nr52
        } else if a == 0xFF40 {
            self.ppu.lcd_control
        } else if a == 0xFF42 {
            self.ppu.scy
        } else if a == 0xFF43 {
            self.ppu.scx
        } else if a == 0xFF44 {
            if self.fix_ly_for_gb_doctor {
                FIXED_LY_VALUE
            } else {
                self.ppu.ly
            }
        } else if a == 0xFF47 {
            self.bgp
        } else if a == 0xFF50 {
            self.dmg_boot_rom
        } else if a <= 0xFFFE {
            self.memory.hram[(a - 0xFF80) as usize]
        } else {
            self.interrupts.interrupt_enable
        }
    }

    /// Reads the bytes from `address` up to `range_end(address, size)`.
    pub fn read_range(&self, address: u16, size: usize) -> (r: Vec<u8>)
        requires
            self@.wf(),
            forall|a: u16| address <= a < range_end(address, size) ==> #[trigger] is_readable(a),
        ensures
            r@.len() == range_end(address, size) - address,
            forall|i: int|
                0 <= i < r@.len() ==> r@[i] == self@.read((address + i) as u16),
    {
        let end = address.saturating_add((size % 0x10000) as u16);
        let mut res: Vec<u8> = Vec::new();
        let mut a: u16 = address;
        while a < end
            invariant
                address <= a,
                a <= end,
                end == range_end(address, size),
                self@.wf(),
                forall|x: u16| address <= x < range_end(address, size) ==> #[trigger] is_readable(x),
                res@.len() == a - address,
                forall|i: int|
                    0 <= i < res@.len() ==> res@[i] == self@.read((address + i) as u16),
            decreases end - a,
        {
            res.push(self.read_u8(a));
            a = a + 1;
        }
        res
    }

    /// One line of a memory dump: the address and the eight bytes from it.
    pub fn show_memory_row(&self, from: u16) -> (r: String)
        requires
            self@.wf(),
            from <= 0xFFF7,
            forall|a: u16| from <= a < from + 8 ==> #[trigger] is_readable(a),
        ensures
            r@ == memory_row_text(from, Seq::new(8, |i: int| self@.read((from + i) as u16))),
    {
        let range = self.read_range(from, 8);
        assert(range@ =~= Seq::new(8, |i: int| self@.read((from + i) as u16)));
        format_memory_row(from, &range)
    }

    /// Sets the flag bit of interrupt source `interrupt_bit`.
    pub fn request_interrupt(&mut self, interrupt_bit: u8)
        requires
            interrupt_bit < 5,
        ensures
            final(self)@ == (MachineView {
                interrupts: Interrupts {
                    interrupt_flag: flag_with(old(self).interrupts.interrupt_flag, interrupt_bit),
                    ..old(self).interrupts
                },
                ..old(self)@
            }),
    {
        self.interrupts.request_interrupt(interrupt_bit);
    }

    /// Writes one byte through the bus.
    pub fn write_u8(&mut self, address: u16, value: u8)
        requires
            old(self)@.wf(),
            old(self)@.is_writable(address),
        ensures
            final(self)@ == old(self)@.write(address, value),
            final(self)@.wf(),
        decreases address,
    {
        let a = address;
        if a <= 0x7FFF {
            // cartridge ROM: no bank controller is modelled, so the write has no effect
        } else if a <= 0x9FFF {
            self.ppu.vram.set((a - 0x8000) as usize, value);
        } else if a <= 0xBFFF {
            self.external_ram.set((a - 0xA000) as usize, value);
        } else if a <= 0xCFFF {
            self.ppu.wram_0.set((a - 0xC000) as usize, value);
        } else if a <= 0xDFFF {
            self.ppu.wram_1.set((a - 0xD000) as usize, value);
        } else if a <= 0xFDFF {
            // echo of working RAM
            self.write_u8(a - 0x2000, value);
        } else if a == 0xFF00 {
            self.joypad = value;
        } else if a == 0xFF01 {
            self.sb = value;
        } else if a == 0xFF02 {
            self.sc = value;
        } else if 0xFF04 <= a && a <= 0xFF07 {
            self.timers.write_u8(a, value);
        } else if a == 0xFF0F {
            self.interrupts.interrupt_flag = value;
        } else if a == 0xFF11 {
            self.nr11 = value;
        } else if a == 0xFF12 {
            self.nr12 = value;
        } else if a == 0xFF13 {
            self.nr13 = value;
        } else if a == 0xFF14 {
            self.nr14 = value;
        } else if a == 0xFF24 {
            self.nr50 = value;
        } else if a == 0xFF25 {
            self.nr51 = value;
        } else if a == 0xFF26 {
            self.nr52 = value;
        } else if a == 0xFF40 {
            self.ppu.lcd_control = value;
        } else if a == 0xFF42 {
            self.ppu.scy = value;
        } else if a == 0xFF43 {
            self.ppu.scx = value;
        } else if a == 0xFF47 {
            self.bgp = value;
        } else if a == 0xFF50 {
            self.dmg_boot_rom = value;
            self.boot_rom_disabled = true;
        } else if a <= 0xFFFE {
            self.memory.hram.set((a - 0xFF80) as usize, value);
        } else {
            self.interrupts.interrupt_enable = value;
        }
    }
}

/// The echo region 0xE000..=0xFDFF mirrors working RAM 0xC000..=0xDDFF: a
/// read there returns the mirrored byte, a write there has the effect of the
/// mirrored write, and a byte written to working RAM reads back through the echo.
pub proof fn lemma_echo_mirrors_working_ram(m: MachineView, x: u16, v: u8)
    requires
        m.wf(),
        0xC000 <= x <= 0xDDFF,
    ensures
        m.read((x + 0x2000) as u16) == m.read(x),
        m.write((x + 0x2000) as u16, v) == m.write(x, v),
        m.write(x, v).read((x + 0x2000) as u16) == v,
{
}

/// While the overlay is on, reads of 0x0000..=0x00FF return boot-ROM bytes;
/// after any write to 0xFF50, whatever the value, they return cartridge ROM
/// bank 0, and the overlay stays off through every later write.
pub proof fn lemma_boot_rom_overlay(m: MachineView, a: u16, v: u8)
    requires
        m.wf(),
        m.boot_rom_on(),
        a <= 0xFF,
    ensures
        m.read(a) == m.memory.boot_rom[a as int],
        m.is_writable(0xFF50),
        !m.write(0xFF50, v).boot_rom_on(),
        m.write(0xFF50, v).read(0xFF50) == v,
        forall|b: u16, w: u8| !#[trigger] m.write(0xFF50, v).write(b, w).boot_rom_on(),
        m.write(0xFF50, v).read(a) == m.memory.bank_00[a as int],
{
}

} // verus!
