use std::collections::VecDeque;
use vstd::prelude::*;
use crate::ppu::{
    Ppu, PpuView, read_tile_row, addressing_mode_of, merge_plane, tile_plane_address,
    lemma_merge_plane_keeps_colors,
};
use crate::timers::wrap_inc;

verus! {

/// The phases of the background/window fetch pipeline, in cyclic order.
#[derive(Clone, Copy, Debug, PartialEq, Eq, Structural)]
pub enum FetcherState {
    GetTileDelay,
    GetTile,
    GetTileDataLowDelay,
    GetTileDataLow,
    GetTileDataHighDelay,
    GetTileDataHigh,
    PushRow,
}

/// One pixel waiting in the FIFO: a 2-bit index into the background palette.
#[derive(Clone, Copy, Debug, PartialEq, Eq, Structural)]
pub struct FIFOItem {
    pub color: u8,
}

/// Fetches background/window tiles one dot at a time and pushes them, eight
/// pixels at a time, into a FIFO that is only filled when empty.
#[derive(Clone, Debug)]
pub struct BackgroundOrWindowFetcher {
    pub state: FetcherState,
    pub fifo: VecDeque<FIFOItem>,
    pub row_of_pixel_within_tile: u8,
    pub tile_id: u8,
    /// Tile-map column cursor.
    pub vram_tile_column: u8,
    pub tile_row_data: [u8; 8],
}

/// The contents of a [`BackgroundOrWindowFetcher`] as mathematical values.
pub ghost struct FetcherView {
    pub state: FetcherState,
    pub fifo: Seq<FIFOItem>,
    pub row_of_pixel_within_tile: u8,
    pub tile_id: u8,
    pub vram_tile_column: u8,
    pub tile_row_data: Seq<u8>,
}

impl View for BackgroundOrWindowFetcher {
    type V = FetcherView;

    open spec fn view(&self) -> FetcherView {
        FetcherView {
            state: self.state,
            fifo: self.fifo@,
            row_of_pixel_within_tile: self.row_of_pixel_within_tile,
            tile_id: self.tile_id,
            vram_tile_column: self.vram_tile_column,
            tile_row_data: self.tile_row_data@,
        }
    }
}

/// Eight zero colour indices.
pub open spec fn blank_row() -> Seq<u8> {
    Seq::new(8, |i: int| 0u8)
}

/// Background pixel row of the current scanline (wrapping in the 256x256 plane).
pub open spec fn pixel_row_of(p: PpuView) -> u8 {
    ((p.ly + p.scy) % 256) as u8
}

/// Background pixel column under the tile-map column cursor.
pub open spec fn pixel_col_of(p: PpuView, column: u8) -> u8 {
    ((column * 8 + p.scx) % 256) as u8
}

/// Index of the tile-map cell that the fetch looks up.
pub open spec fn tile_map_cell(p: PpuView, column: u8) -> int {
    (pixel_row_of(p) / 8) * 32 + pixel_col_of(p, column) / 8
}

/// Whether the LCD-control register selects the tile map at 0x9C00.
pub open spec fn uses_high_tile_map(lcd_control: u8) -> bool {
    lcd_control & 0x08 != 0
}

/// VRAM offset of the tile-map entry that the fetch reads.
pub open spec fn tile_map_entry_address(p: PpuView, column: u8) -> int {
    (if uses_high_tile_map(p.lcd_control) {
        0x1C00int
    } else {
        0x1800int
    }) + tile_map_cell(p, column)
}

/// The eight pixels that a push moves into the FIFO.
pub open spec fn row_items(row: Seq<u8>) -> Seq<FIFOItem> {
    Seq::new(8, |i: int| FIFOItem { color: row[i] })
}

impl FetcherView {
    /// The row buffer holds eight pixels, and every pixel in the row buffer
    /// and in the FIFO is a 2-bit colour index.
    pub open spec fn wf(self) -> bool {
        &&& self.tile_row_data.len() == 8
        &&& forall|i: int| 0 <= i < 8 ==> #[trigger] self.tile_row_data[i] < 4
        &&& forall|i: int| 0 <= i < self.fifo.len() ==> #[trigger] self.fifo[i].color < 4
    }

    /// Fetcher state after one dot.
    pub open spec fn next(self, p: PpuView) -> FetcherView {
        match self.state {
            FetcherState::GetTileDelay => FetcherView { state: FetcherState::GetTile, ..self },
            FetcherState::GetTile => FetcherView {
                state: FetcherState::GetTileDataLowDelay,
                tile_id: p.vram[tile_map_entry_address(p, self.vram_tile_column)],
                ..self
            },
            FetcherState::GetTileDataLowDelay => FetcherView {
                state: FetcherState::GetTileDataLow,
                ..self
            },
            FetcherState::GetTileDataLow => FetcherView {
                state: FetcherState::GetTileDataHighDelay,
                tile_row_data: merge_plane(
                    self.tile_row_data,
                    p.vram[tile_plane_address(
                        addressing_mode_of(p.lcd_control),
                        pixel_row_of(p),
                        self.tile_id,
                        false,
                    )],
                    false,
                ),
                ..self
            },
            FetcherState::GetTileDataHighDelay => FetcherView {
                state: FetcherState::GetTileDataHigh,
                ..self
            },
            FetcherState::GetTileDataHigh => FetcherView {
                state: FetcherState::PushRow,
                tile_row_data: merge_plane(
                    self.tile_row_data,
                    p.vram[tile_plane_address(
                        addressing_mode_of(p.lcd_control),
                        pixel_row_of(p),
                        self.tile_id,
                        true,
                    )],
                    true,
                ),
                ..self
            },
            FetcherState::PushRow => if self.fifo.len() == 0 {
                FetcherView {
                    state: FetcherState::GetTileDelay,
                    fifo: row_items(self.tile_row_data),
                    vram_tile_column: wrap_inc(self.vram_tile_column),
                    tile_row_data: blank_row(),
                    ..self
                }
            } else {
                self
            },
        }
    }

    /// Picture-unit state after one dot of this fetcher: only a tile-map
    /// lookup changes it, recording the addressing mode used for the cell.
    pub open spec fn next_ppu(self, p: PpuView) -> PpuView {
        if self.state == FetcherState::GetTile {
            let cell = tile_map_cell(p, self.vram_tile_column);
            let mode = addressing_mode_of(p.lcd_control);
            if uses_high_tile_map(p.lcd_control) {
                PpuView { tile_map0_modes: p.tile_map0_modes.update(cell, mode), ..p }
            } else {
                PpuView { tile_map1_modes: p.tile_map1_modes.update(cell, mode), ..p }
            }
        } else {
            p
        }
    }

    /// The state that both reset entry points produce.
    pub open spec fn reset(self) -> FetcherView {
        FetcherView {
            state: FetcherState::GetTileDelay,
            fifo: Seq::empty(),
            row_of_pixel_within_tile: 0,
            vram_tile_column: 0,
            tile_row_data: blank_row(),
            ..self
        }
    }
}

impl BackgroundOrWindowFetcher {
    pub fn new() -> (r: Self)
        ensures
            r@.state == FetcherState::GetTileDelay,
            r@.fifo.len() == 0,
            r@.row_of_pixel_within_tile == 0,
            r@.tile_id == 0,
            r@.vram_tile_column == 0,
            r@.tile_row_data == blank_row(),
            r@.wf(),
    {
        let r = BackgroundOrWindowFetcher {
            state: FetcherState::GetTileDelay,
            fifo: VecDeque::new(),
            row_of_pixel_within_tile: 0,
            tile_id: 0,
            vram_tile_column: 0,
            tile_row_data: [0u8; 8],
        };
        assert(r@.tile_row_data =~= blank_row());
        r
    }

    fn reset(&mut self)
        ensures
            final(self)@ == old(self)@.reset(),
            final(self)@.wf(),
    {
        self.state = FetcherState::GetTileDelay;
        self.fifo.clear();
        self.row_of_pixel_within_tile = 0;
        self.vram_tile_column = 0;
        self.tile_row_data = [0u8; 8];
        assert(self@.tile_row_data =~= blank_row());
        assert(self@.fifo =~= Seq::empty());
    }

    /// Resets the pipeline at the start of a frame.
    pub fn prepare_for_new_frame(&mut self)
        ensures
            final(self)@ == old(self)@.reset(),
            final(self)@.wf(),
    {
        self.reset();
    }

    /// Resets the pipeline at the start of a scanline.
    pub fn prepare_for_new_row(&mut self)
        ensures
            final(self)@ == old(self)@.reset(),
            final(self)@.wf(),
    {
        self.reset();
    }

    /// Advances the pipeline by one dot.
    pub fn tick(&mut self, ppu: &mut Ppu)
        requires
            old(ppu)@.wf(),
            old(self)@.wf(),
        ensures
            final(self)@.wf(),
            final(self)@ == old(self)@.next(old(ppu)@),
            final(ppu)@ == old(self)@.next_ppu(old(ppu)@),
            final(ppu)@.wf(),
            old(self).state == FetcherState::PushRow && old(self)@.fifo.len() > 0 ==> final(self)@
                == old(self)@,
    {
        proof {
            lemma_next_keeps_colors(self@, ppu@);
        }
        let state = self.state;
        match state {
            FetcherState::GetTileDelay => {
                self.state = FetcherState::GetTile;
            },
            FetcherState::GetTile => {
                let pixel_row = ((ppu.ly as u16 + ppu.scy as u16) % 256) as u8;
                let pixel_col = ((self.vram_tile_column as u16 * 8 + ppu.scx as u16) % 256) as u8;
                let tile_row = pixel_row / 8;
                let tile_col = pixel_col / 8;
                let cell: usize = tile_row as usize * 32 + tile_col as usize;
                let mode = ppu.get_addressing_mode();
                let base: usize = if ppu.lcd_control & 0x08 != 0 {
                    ppu.tile_map0_last_addressing_modes.set(cell, mode);
                    0x1C00
                } else {
                    ppu.tile_map1_last_addressing_modes.set(cell, mode);
                    0x1800
                };
                self.tile_id = ppu.vram[base + cell];
                self.state = FetcherState::GetTileDataLowDelay;
            },
            FetcherState::GetTileDataLowDelay => {
                self.state = FetcherState::GetTileDataLow;
            },
            FetcherState::GetTileDataLow => {
                let pixel_row = ((ppu.ly as u16 + ppu.scy as u16) % 256) as u8;
                let mode = ppu.get_addressing_mode();
                read_tile_row(&ppu.vram, mode, pixel_row, self.tile_id, false, &mut self.tile_row_data);
                self.state = FetcherState::GetTileDataHighDelay;
            },
            FetcherState::GetTileDataHighDelay => {
                self.state = FetcherState::GetTileDataHigh;
            },
            FetcherState::GetTileDataHigh => {
                let pixel_row = ((ppu.ly as u16 + ppu.scy as u16) % 256) as u8;
                let mode = ppu.get_addressing_mode();
                read_tile_row(&ppu.vram, mode, pixel_row, self.tile_id, true, &mut self.tile_row_data);
                self.state = FetcherState::PushRow;
            },
            FetcherState::PushRow => {
                // Background/window pixels only enter an empty FIFO.
                if self.fifo.len() == 0 {
                    let mut i: usize = 0;
                    while i < 8
                        invariant
                            0 <= i <= 8,
                            self.fifo@ =~= row_items(self.tile_row_data@).take(i as int),
                            self.tile_row_data == old(self).tile_row_data,
                            self.state == old(self).state,
                            self.tile_id == old(self).tile_id,
                            self.vram_tile_column == old(self).vram_tile_column,
                            self.row_of_pixel_within_tile == old(self).row_of_pixel_within_tile,
                        decreases 8 - i,
                    {
                        let color = self.tile_row_data[i];
                        self.fifo.push_back(FIFOItem { color });
                        i = i + 1;
                    }
                    assert(self.fifo@ =~= row_items(self.tile_row_data@));
                    self.vram_tile_column = self.vram_tile_column.wrapping_add(1);
                    self.tile_row_data = [0u8; 8];
                    self.state = FetcherState::GetTileDelay;
                    assert(self@.tile_row_data =~= blank_row());
                }
            },
        }
    }
}

/// One dot keeps every pixel a 2-bit colour index.
proof fn lemma_next_keeps_colors(f: FetcherView, p: PpuView)
    requires
        f.wf(),
    ensures
        f.next(p).wf(),
{
    let mode = addressing_mode_of(p.lcd_control);
    lemma_merge_plane_keeps_colors(
        f.tile_row_data,
        p.vram[tile_plane_address(mode, pixel_row_of(p), f.tile_id, false)],
        false,
    );
    lemma_merge_plane_keeps_colors(
        f.tile_row_data,
        p.vram[tile_plane_address(mode, pixel_row_of(p), f.tile_id, true)],
        true,
    );
}

/// From `GetTileDelay` with an empty FIFO and a blank row, seven dots run one
/// full cycle: the tile ID comes from the selected tile map, its two bit planes
/// (read with the addressing mode in force) are merged, exactly eight pixels
/// enter the FIFO, and the column cursor advances by one.
pub proof fn lemma_fetch_cycle(f: FetcherView, p: PpuView)
    requires
        p.wf(),
        f.state == FetcherState::GetTileDelay,
        f.fifo.len() == 0,
        f.tile_row_data == blank_row(),
    ensures
        ({
            let f1 = f.next(p);
            let q = f1.next_ppu(p);
            let f7 = f1.next(q).next(q).next(q).next(q).next(q).next(q);
            let tile_id = p.vram[tile_map_entry_address(p, f.vram_tile_column)];
            let mode = addressing_mode_of(p.lcd_control);
            let low = p.vram[tile_plane_address(mode, pixel_row_of(p), tile_id, false)];
            let high = p.vram[tile_plane_address(mode, pixel_row_of(p), tile_id, true)];
            &&& q.vram == p.vram
            &&& f7.state == FetcherState::GetTileDelay
            &&& f7.tile_id == tile_id
            &&& f7.fifo == row_items(merge_plane(merge_plane(blank_row(), low, false), high, true))
            &&& f7.fifo.len() == 8
            &&& f7.vram_tile_column == wrap_inc(f.vram_tile_column)
            &&& f7.tile_row_data == blank_row()
        }),
{
}

} // verus!
