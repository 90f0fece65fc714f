use dmg_core::fetcher::{BackgroundOrWindowFetcher, FetcherState, FIFOItem};
use dmg_core::ppu::{read_tile_row, AddressingMode, Ppu};

fn fixture() -> Ppu {
    let mut ppu = Ppu::new();
    // unsigned tile data, tile map at 0x9800
    ppu.lcd_control = 0x10;
    ppu.vram[0x1800] = 1;
    ppu.vram[0x10] = 0b1010_0101;
    ppu.vram[0x11] = 0b1100_0011;
    ppu
}

fn colors(f: &BackgroundOrWindowFetcher) -> Vec<u8> {
    f.fifo.iter().map(|p| p.color).collect()
}

#[test]
fn one_cycle_pushes_a_decoded_row() {
    let mut ppu = fixture();
    let mut f = BackgroundOrWindowFetcher::new();
    let phases = [
        FetcherState::GetTile,
        FetcherState::GetTileDataLowDelay,
        FetcherState::GetTileDataLow,
        FetcherState::GetTileDataHighDelay,
        FetcherState::GetTileDataHigh,
        FetcherState::PushRow,
    ];
    for p in phases {
        f.tick(&mut ppu);
        assert_eq!(f.state, p);
        assert!(f.fifo.is_empty());
    }
    assert_eq!(f.tile_id, 1);
    f.tick(&mut ppu);
    assert_eq!(f.state, FetcherState::GetTileDelay);
    assert_eq!(colors(&f), vec![3, 2, 1, 0, 0, 1, 2, 3]);
    assert_eq!(f.vram_tile_column, 1);
    assert_eq!(f.tile_row_data, [0; 8]);
    assert_eq!(ppu.tile_map1_last_addressing_modes[0], AddressingMode::Unsigned);
}

#[test]
fn full_fifo_stalls_push() {
    let mut ppu = fixture();
    let mut f = BackgroundOrWindowFetcher::new();
    for _ in 0..7 {
        f.tick(&mut ppu);
    }
    assert_eq!(f.fifo.len(), 8);
    for _ in 0..6 {
        f.tick(&mut ppu);
    }
    assert_eq!(f.state, FetcherState::PushRow);
    f.fifo.pop_front();
    for _ in 0..5 {
        f.tick(&mut ppu);
        assert_eq!(f.state, FetcherState::PushRow);
        assert_eq!(f.fifo.len(), 7);
        assert_eq!(f.vram_tile_column, 1);
    }
    f.fifo.clear();
    f.tick(&mut ppu);
    assert_eq!(f.state, FetcherState::GetTileDelay);
    assert_eq!(f.fifo.len(), 8);
    assert_eq!(f.vram_tile_column, 2);
}

#[test]
fn signed_addressing_and_high_tile_map() {
    let mut ppu = Ppu::new();
    ppu.lcd_control = 0x08;
    ppu.scy = 3;
    ppu.vram[0x1C00] = 0xFF;
    // tile -1 lives at 0x0FF0; pixel row 3 uses bytes 6 and 7
    ppu.vram[0x0FF6] = 0xFF;
    ppu.vram[0x0FF7] = 0x00;
    let mut f = BackgroundOrWindowFetcher::new();
    for _ in 0..7 {
        f.tick(&mut ppu);
    }
    assert_eq!(f.tile_id, 0xFF);
    assert_eq!(colors(&f), vec![1; 8]);
    assert_eq!(ppu.tile_map0_last_addressing_modes[0], AddressingMode::Signed);
}

#[test]
fn scroll_wraps_within_background() {
    let mut ppu = Ppu::new();
    ppu.lcd_control = 0x10;
    ppu.scx = 0xF8;
    ppu.ly = 0xFF;
    ppu.scy = 0x09;
    // pixel row (0xFF + 9) mod 256 = 8: tile row 1, pixel row 0 within tile
    // pixel col (1 * 8 + 0xF8) mod 256 = 0: tile col 0
    ppu.vram[0x1800 + 32] = 2;
    ppu.vram[0x20] = 0x80;
    let mut f = BackgroundOrWindowFetcher::new();
    f.vram_tile_column = 1;
    for _ in 0..7 {
        f.tick(&mut ppu);
    }
    assert_eq!(f.tile_id, 2);
    assert_eq!(colors(&f), vec![1, 0, 0, 0, 0, 0, 0, 0]);
    assert_eq!(ppu.tile_map1_last_addressing_modes[32], AddressingMode::Unsigned);
}

#[test]
fn resets_clear_the_pipeline() {
    let mut ppu = fixture();
    let mut f = BackgroundOrWindowFetcher::new();
    for _ in 0..9 {
        f.tick(&mut ppu);
    }
    f.prepare_for_new_row();
    assert_eq!(f.state, FetcherState::GetTileDelay);
    assert!(f.fifo.is_empty());
    assert_eq!(f.vram_tile_column, 0);
    assert_eq!(f.row_of_pixel_within_tile, 0);
    for _ in 0..5 {
        f.tick(&mut ppu);
    }
    f.prepare_for_new_frame();
    assert_eq!(f.state, FetcherState::GetTileDelay);
    assert_eq!(f.tile_row_data, [0; 8]);
    f.fifo.push_back(FIFOItem { color: 1 });
    f.prepare_for_new_frame();
    assert!(f.fifo.is_empty());
}

#[test]
fn tile_row_planes_merge() {
    let mut vram = vec![0u8; 0x2000];
    vram[0x20 + 4] = 0b1000_0001;
    vram[0x20 + 5] = 0b0000_0011;
    let mut row = [0u8; 8];
    read_tile_row(&vram, AddressingMode::Unsigned, 10, 2, false, &mut row);
    assert_eq!(row, [1, 0, 0, 0, 0, 0, 0, 1]);
    read_tile_row(&vram, AddressingMode::Unsigned, 10, 2, true, &mut row);
    assert_eq!(row, [1, 0, 0, 0, 0, 0, 2, 3]);
}
