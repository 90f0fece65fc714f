use vstd::prelude::*;

verus! {

/// Size of video RAM, as seen from bus address 0x8000.
pub const VRAM_SIZE: usize = 0x2000;
/// Size of each of the two working-RAM banks.
pub const WRAM_BANK_SIZE: usize = 0x1000;
/// Cells in one 32x32 tile map.
pub const TILE_MAP_CELL_COUNT: usize = 1024;
/// Tiles per tile-map row.
pub const TILE_MAP_HORIZONTAL_TILE_COUNT: usize = 32;
/// LCD-control bit selecting the background tile map.
pub const LCDC_BACKGROUND_TILE_MAP_AREA_BIT: u8 = 3;
/// LCD-control bit selecting the background/window tile data addressing mode.
pub const LCDC_BG_WINDOW_TILE_DATA_AREA_BIT: u8 = 4;

/// How a tile ID is turned into the VRAM offset of its tile data.
#[derive(Clone, Copy, Debug, PartialEq, Eq, Structural)]
pub enum AddressingMode {
    /// Tile `id` lives at `id * 16` (bus 0x8000 upwards).
    Unsigned,
    /// Tile `id`, read as a signed byte, lives at `0x1000 + id * 16` (bus 0x9000 base).
    Signed,
}

/// The picture unit's storage and registers that the bus and the fetcher use.
#[derive(Clone, Debug)]
pub struct Ppu {
    pub vram: Vec<u8>,
    pub wram_0: Vec<u8>,
    pub wram_1: Vec<u8>,
    pub lcd_control: u8,
    /// Current scanline.
    pub ly: u8,
    pub scx: u8,
    pub scy: u8,
    /// Per cell of the map at 0x9C00, the addressing mode in force when it was last fetched.
    pub tile_map0_last_addressing_modes: Vec<AddressingMode>,
    /// Per cell of the map at 0x9800, the addressing mode in force when it was last fetched.
    pub tile_map1_last_addressing_modes: Vec<AddressingMode>,
}

/// The contents of a [`Ppu`] as mathematical values.
pub ghost struct PpuView {
    pub vram: Seq<u8>,
    pub wram_0: Seq<u8>,
    pub wram_1: Seq<u8>,
    pub lcd_control: u8,
    pub ly: u8,
    pub scx: u8,
    pub scy: u8,
    pub tile_map0_modes: Seq<AddressingMode>,
    pub tile_map1_modes: Seq<AddressingMode>,
}

impl PpuView {
    pub open spec fn wf(self) -> bool {
        &&& self.vram.len() == VRAM_SIZE
        &&& self.wram_0.len() == WRAM_BANK_SIZE
        &&& self.wram_1.len() == WRAM_BANK_SIZE
        &&& self.tile_map0_modes.len() == TILE_MAP_CELL_COUNT
        &&& self.tile_map1_modes.len() == TILE_MAP_CELL_COUNT
    }
}

impl View for Ppu {
    type V = PpuView;

    open spec fn view(&self) -> PpuView {
        PpuView {
            vram: self.vram@,
            wram_0: self.wram_0@,
            wram_1: self.wram_1@,
            lcd_control: self.lcd_control,
            ly: self.ly,
            scx: self.scx,
            scy: self.scy,
            tile_map0_modes: self.tile_map0_last_addressing_modes@,
            tile_map1_modes: self.tile_map1_last_addressing_modes@,
        }
    }
}

/// The addressing mode that an LCD-control value selects.
pub open spec fn addressing_mode_of(lcd_control: u8) -> AddressingMode {
    if lcd_control & 0x10 != 0 {
        AddressingMode::Unsigned
    } else {
        AddressingMode::Signed
    }
}

/// VRAM offset of the first byte of tile `tile_id`'s data.
pub open spec fn tile_data_address(mode: AddressingMode, tile_id: u8) -> int {
    match mode {
        AddressingMode::Unsigned => tile_id * 16,
        AddressingMode::Signed => if tile_id < 128 {
            0x1000 + tile_id * 16
        } else {
            0x1000 + (tile_id - 256) * 16
        },
    }
}

/// VRAM offset of one bit-plane byte of the row of tile `tile_id` that
/// background pixel row `pixel_row` falls in.
pub open spec fn tile_plane_address(
    mode: AddressingMode,
    pixel_row: u8,
    tile_id: u8,
    high: bool,
) -> int {
    tile_data_address(mode, tile_id) + 2 * (pixel_row % 8) + if high {
        1int
    } else {
        0int
    }
}

/// Bit `i` of a plane byte, counting from the leftmost pixel.
pub open spec fn plane_bit(byte: u8, i: int) -> u8 {
    (byte >> ((7 - i) as u8)) & 1
}

/// A row of colour indices with one bit plane merged in.
pub open spec fn merge_plane(row: Seq<u8>, byte: u8, high: bool) -> Seq<u8> {
    Seq::new(
        8,
        |i: int|
            row[i] | if high {
                plane_bit(byte, i) << 1u8
            } else {
                plane_bit(byte, i)
            },
    )
}

/// Merging a plane into a row of 2-bit colour indices keeps them 2-bit.
pub proof fn lemma_merge_plane_keeps_colors(row: Seq<u8>, byte: u8, high: bool)
    requires
        row.len() == 8,
        forall|i: int| 0 <= i < 8 ==> row[i] < 4,
    ensures
        forall|i: int| 0 <= i < 8 ==> #[trigger] merge_plane(row, byte, high)[i] < 4,
{
    assert forall|i: int| 0 <= i < 8 implies #[trigger] merge_plane(row, byte, high)[i] < 4 by {
        let x = row[i];
        let s = (7 - i) as u8;
        assert(x < 4 ==> (x | ((byte >> s) & 1)) < 4 && (x | (((byte >> s) & 1) << 1u8)) < 4)
            by (bit_vector);
    }
}

impl Ppu {
    pub fn new() -> (r: Self)
        ensures
            r@.wf(),
            r@.vram == Seq::new(VRAM_SIZE as nat, |i: int| 0u8),
            r@.wram_0 == Seq::new(WRAM_BANK_SIZE as nat, |i: int| 0u8),
            r@.wram_1 == Seq::new(WRAM_BANK_SIZE as nat, |i: int| 0u8),
            r.lcd_control == 0,
            r.ly == 0,
            r.scx == 0,
            r.scy == 0,
            r@.tile_map0_modes == Seq::new(TILE_MAP_CELL_COUNT as nat, |i: int| AddressingMode::Signed),
            r@.tile_map1_modes == Seq::new(TILE_MAP_CELL_COUNT as nat, |i: int| AddressingMode::Signed),
    {
        let r = Ppu {
            vram: vec![0u8; VRAM_SIZE],
            wram_0: vec![0u8; WRAM_BANK_SIZE],
            wram_1: vec![0u8; WRAM_BANK_SIZE],
            lcd_control: 0,
            ly: 0,
            scx: 0,
            scy: 0,
            tile_map0_last_addressing_modes: vec![AddressingMode::Signed; TILE_MAP_CELL_COUNT],
            tile_map1_last_addressing_modes: vec![AddressingMode::Signed; TILE_MAP_CELL_COUNT],
        };
        assert(r@.vram =~= Seq::new(VRAM_SIZE as nat, |i: int| 0u8));
        assert(r@.wram_0 =~= Seq::new(WRAM_BANK_SIZE as nat, |i: int| 0u8));
        assert(r@.wram_1 =~= Seq::new(WRAM_BANK_SIZE as nat, |i: int| 0u8));
        assert(r@.tile_map0_modes =~= Seq::new(TILE_MAP_CELL_COUNT as nat, |i: int| AddressingMode::Signed));
        assert(r@.tile_map1_modes =~= Seq::new(TILE_MAP_CELL_COUNT as nat, |i: int| AddressingMode::Signed));
        r
    }

    /// The addressing mode currently configured by the LCD-control register.
    pub fn get_addressing_mode(&self) -> (r: AddressingMode)
        ensures
            r == addressing_mode_of(self.lcd_control),
    {
        if self.lcd_control & 0x10 != 0 {
            AddressingMode::Unsigned
        } else {
            AddressingMode::Signed
        }
    }
}

/// Merges one bit plane of a tile row into `row`: for pixel `i`, bit `7 - i`
/// of the plane byte becomes bit 0 (low plane) or bit 1 (high plane) of the
/// pixel's colour index.
pub fn read_tile_row(
    vram: &Vec<u8>,
    mode: AddressingMode,
    pixel_row: u8,
    tile_id: u8,
    high: bool,
    row: &mut [u8; 8],
)
    requires
        vram@.len() == VRAM_SIZE,
    ensures
        0 <= tile_plane_address(mode, pixel_row, tile_id, high) < VRAM_SIZE,
        final(row)@ == merge_plane(
            old(row)@,
            vram@[tile_plane_address(mode, pixel_row, tile_id, high)],
            high,
        ),
{
    let base: usize = match mode {
        AddressingMode::Unsigned => tile_id as usize * 16,
        AddressingMode::Signed => if tile_id < 128 {
            0x1000 + tile_id as usize * 16
        } else {
            0x1000 - (256 - tile_id as usize) * 16
        },
    };
    let index: usize = base + 2 * (pixel_row as usize % 8) + if high {
        1usize
    } else {
        0usize
    };
    let byte = vram[index];
    let ghost start = row@;
    let mut i: usize = 0;
    while i < 8
        invariant
            0 <= i <= 8,
            row@.len() == 8,
            start.len() == 8,
            forall|j: int| 0 <= j < i ==> row@[j] == merge_plane(start, byte, high)[j],
            forall|j: int| i <= j < 8 ==> row@[j] == start[j],
        decreases 8 - i,
    {
        let bit = (byte >> (7 - i as u8)) & 1;
        let add = if high {
            bit << 1u8
        } else {
            bit
        };
        row[i] = row[i] | add;
        i = i + 1;
    }
    assert(row@ =~= merge_plane(start, byte, high));
}

} // verus!
