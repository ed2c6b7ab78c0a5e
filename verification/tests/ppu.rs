use advance::ppu::{
    copy_line, pick_top_two, pick_top_two_layers, render_lcd_line, render_mode0_backgrounds,
    render_screen,
    render_mode1_backgrounds, render_mode3_backgrounds, render_mode3_bg_pixel,
    render_mode4_backgrounds, render_mode4_bg_pixel, render_mode5_backgrounds,
    render_mode5_bg_pixel, render_text_bg_pixel, BgAttributes, BgPaletteMode, Layer, LayerId,
    LcdControllerRegs,
};

const VRAM_SIZE: usize = 96 * 1024;

fn regs_from(writes: &[(u32, u16)]) -> LcdControllerRegs {
    let mut regs = LcdControllerRegs::new();
    for &(addr, value) in writes {
        assert!(regs.write(addr, value as u32));
    }
    regs
}

fn palette() -> Vec<u16> {
    (0..512u32).map(|i| (0x7000 + i * 3) as u16).collect()
}

fn layer(id: LayerId, color: u16, priority: u8) -> Layer {
    Layer { id, color, priority, force_alpha_blend: false }
}

#[test]
fn registers_after_reset() {
    let regs = LcdControllerRegs::new();
    assert_eq!(regs.video_mode, 0);
    assert_eq!(regs.active_display_page, 0);
    assert!(!regs.forced_blank_enabled);
    assert_eq!(regs.bg_layer_enabled, [false; 4]);
    for bg in regs.bg_attributes {
        assert_eq!(bg, BgAttributes::new());
    }
    let bg = BgAttributes::new();
    assert_eq!(
        (bg.priority, bg.char_base, bg.palette_mode, bg.map_base, bg.size_mode, bg.x_scroll, bg.y_scroll),
        (0, 0, BgPaletteMode::Pal16, 0, 0, 0, 0)
    );
}

#[test]
fn dispcnt_fields() {
    let regs = regs_from(&[(0x0400_0000, 0x1F40)]);
    assert_eq!(regs.video_mode, 0);
    assert_eq!(regs.active_display_page, 0);
    assert!(!regs.forced_blank_enabled);
    assert_eq!(regs.bg_layer_enabled, [true, true, true, true]);
    let regs = regs_from(&[(0x0400_0000, 0x0495)]);
    assert_eq!(regs.video_mode, 5);
    assert_eq!(regs.active_display_page, 1);
    assert!(regs.forced_blank_enabled);
    assert_eq!(regs.bg_layer_enabled, [false, false, true, false]);
    let regs = regs_from(&[(0x0400_0000, 0xFFFF)]);
    assert_eq!(regs.video_mode, 7);
}

#[test]
fn bgcnt_and_scroll_fields() {
    let mut regs = regs_from(&[(0x0400_0008, 0x5E00), (0x0400_0010, 0x00C0), (0x0400_0012, 0x0040)]);
    let bg0 = regs.bg_attributes[0];
    assert_eq!(bg0.priority, 0);
    assert_eq!(bg0.char_base, 0);
    assert_eq!(bg0.palette_mode, BgPaletteMode::Pal16);
    assert_eq!(bg0.map_base, 30);
    assert_eq!(bg0.size_mode, 1);
    assert_eq!(bg0.x_scroll, 0xC0);
    assert_eq!(bg0.y_scroll, 0x40);
    // A control write keeps the scroll offsets; other backgrounds stay as they are.
    assert!(regs.write(0x0400_0008, 0xFFFF_FFFF));
    let bg0 = regs.bg_attributes[0];
    assert_eq!(
        (bg0.priority, bg0.char_base, bg0.palette_mode, bg0.map_base, bg0.size_mode, bg0.x_scroll, bg0.y_scroll),
        (3, 3, BgPaletteMode::Pal256, 31, 3, 0xC0, 0x40)
    );
    assert_eq!(regs.bg_attributes[1], BgAttributes::new());
    // Scroll registers keep nine bits.
    assert!(regs.write(0x0400_001C, 0xFFFF));
    assert!(regs.write(0x0400_001E, 0xFE01));
    assert_eq!(regs.bg_attributes[3].x_scroll, 511);
    assert_eq!(regs.bg_attributes[3].y_scroll, 1);
    let regs = regs_from(&[(0x0400_000A, 0x0584), (0x0400_000C, 0x0685), (0x0400_000E, 0x0786)]);
    assert_eq!(regs.bg_attributes.map(|bg| bg.priority), [0, 0, 1, 2]);
    assert_eq!(regs.bg_attributes.map(|bg| bg.char_base), [0, 1, 1, 1]);
    assert_eq!(regs.bg_attributes.map(|bg| bg.map_base), [0, 5, 6, 7]);
    assert_eq!(regs.bg_attributes[1].palette_mode, BgPaletteMode::Pal256);
}

#[test]
fn every_register_address_is_recognised() {
    let mut regs = LcdControllerRegs::new();
    for offset in (0..0x1000u32).step_by(1) {
        let known = offset == 0 || (0x008..=0x01E).contains(&offset) && offset % 2 == 0;
        assert_eq!(regs.write(0x0400_0000 + offset, 0), known, "offset {:X}", offset);
    }
    // Only the low twelve bits of the address count.
    assert!(regs.write(0xFFFF_F008, 0x0003));
    assert_eq!(regs.bg_attributes[0].priority, 3);
}

#[test]
fn unrecognised_write_changes_nothing() {
    let mut regs = regs_from(&[(0x0400_0000, 0x0403), (0x0400_000C, 0x0082)]);
    assert!(!regs.write(0x0400_0004, 0xFFFF));
    assert!(!regs.write(0x0400_0009, 0xFFFF));
    assert!(!regs.write(0x0400_0020, 0xFFFF));
    assert_eq!(regs.video_mode, 3);
    assert_eq!(regs.bg_layer_enabled, [false, false, true, false]);
    assert_eq!(regs.bg_attributes[2].priority, 2);
    assert_eq!(regs.bg_attributes[2].palette_mode, BgPaletteMode::Pal256);
}

#[test]
fn mode3_line_is_the_vram_line() {
    // A gradient: every half-word of video memory holds its own index.
    let mut vram = vec![0u8; VRAM_SIZE];
    for i in 0..VRAM_SIZE / 2 {
        let color = (i as u16).wrapping_mul(0x0101) & 0x7FFF;
        vram[2 * i] = color as u8;
        vram[2 * i + 1] = (color >> 8) as u8;
    }
    let regs = regs_from(&[(0x0400_0000, 0x0403), (0x0400_000C, 0x0000)]);
    let pals = palette();
    let line = render_lcd_line(0, &regs, &vram, &pals);
    for x in 0..240 {
        assert_eq!(line[x], u16::from_le_bytes([vram[x * 2], vram[x * 2 + 1]]));
    }
    let line = render_lcd_line(159, &regs, &vram, &pals);
    for x in 0..240 {
        let at = (159 * 240 + x) * 2;
        assert_eq!(line[x], u16::from_le_bytes([vram[at], vram[at + 1]]));
    }
    // Below the screen the backdrop shows.
    let line = render_lcd_line(160, &regs, &vram, &pals);
    assert_eq!(line, [pals[0]; 240]);
}

#[test]
fn backdrop_fills_the_line_when_nothing_is_enabled() {
    let vram: Vec<u8> = (0..VRAM_SIZE).map(|i| (i * 31 + 7) as u8).collect();
    let pals = palette();
    for mode in [0u16, 1, 2, 3, 4, 5, 6, 7] {
        let regs = regs_from(&[(0x0400_0000, mode)]);
        for y in [0u16, 80, 159, 200] {
            assert_eq!(render_lcd_line(y, &regs, &vram, &pals), [pals[0]; 240]);
        }
    }
}

#[test]
fn modes_without_backgrounds_draw_only_the_backdrop() {
    let vram: Vec<u8> = (0..VRAM_SIZE).map(|i| (i * 31 + 7) as u8).collect();
    let pals = palette();
    for mode in [2u16, 6, 7] {
        let regs = regs_from(&[(0x0400_0000, 0x0F00 | mode)]);
        assert_eq!(render_lcd_line(10, &regs, &vram, &pals), [pals[0]; 240]);
    }
}

#[test]
fn mode4_reads_palette_indices_from_the_active_page() {
    let mut vram = vec![0u8; VRAM_SIZE];
    for x in 0..240 {
        vram[2 * 240 + x] = x as u8; // page 0, line 2
        vram[0xA000 + 2 * 240 + x] = (255 - x) as u8; // page 1, line 2
    }
    let pals = palette();
    let regs = regs_from(&[(0x0400_0000, 0x0404)]);
    let line = render_lcd_line(2, &regs, &vram, &pals);
    // Index 0 is transparent: the backdrop shows, which is palette entry 0 too.
    for x in 0..240 {
        assert_eq!(line[x], pals[x]);
    }
    let regs = regs_from(&[(0x0400_0000, 0x0414)]);
    let line = render_lcd_line(2, &regs, &vram, &pals);
    for x in 0..240 {
        assert_eq!(line[x], pals[255 - x]);
    }
    let bg = BgAttributes { priority: 3, ..BgAttributes::new() };
    assert_eq!(render_mode4_bg_pixel(2, 0, &bg, 0, &vram[..0x14000], &pals[..256]), None);
    assert_eq!(
        render_mode4_bg_pixel(2, 9, &bg, 0, &vram[..0x14000], &pals[..256]),
        Some(layer(LayerId::Bg(2), pals[9], 3))
    );
    assert_eq!(render_mode4_bg_pixel(160, 9, &bg, 0, &vram[..0x14000], &pals[..256]), None);
    assert_eq!(render_mode4_bg_pixel(2, 240, &bg, 0, &vram[..0x14000], &pals[..256]), None);
}

#[test]
fn mode5_is_a_smaller_screen_on_two_pages() {
    let mut vram = vec![0u8; VRAM_SIZE];
    for i in 0..0x14000 / 2 {
        vram[2 * i] = i as u8;
        vram[2 * i + 1] = (i >> 8) as u8 & 0x7F;
    }
    let pals = palette();
    let word = |at: usize| u16::from_le_bytes([vram[at], vram[at + 1]]);
    for (page, dispcnt) in [(0usize, 0x0405u16), (1, 0x0415)] {
        let regs = regs_from(&[(0x0400_0000, dispcnt)]);
        let line = render_lcd_line(127, &regs, &vram, &pals);
        for x in 0..160 {
            assert_eq!(line[x], word(page * 0xA000 + (127 * 160 + x) * 2));
        }
        for x in 160..240 {
            assert_eq!(line[x], pals[0]);
        }
        assert_eq!(render_lcd_line(128, &regs, &vram, &pals), [pals[0]; 240]);
    }
    let bg = BgAttributes::new();
    assert_eq!(
        render_mode5_bg_pixel(127, 159, &bg, 1, &vram[..0x14000]),
        Some(layer(LayerId::Bg(2), word(0xA000 + (127 * 160 + 159) * 2), 0))
    );
    assert_eq!(render_mode5_bg_pixel(128, 0, &bg, 1, &vram[..0x14000]), None);
    assert_eq!(render_mode5_bg_pixel(0, 160, &bg, 1, &vram[..0x14000]), None);
    assert_eq!(
        render_mode3_bg_pixel(1, 1, &BgAttributes { priority: 2, ..bg }, &vram[..0x14000]),
        Some(layer(LayerId::Bg(2), word(241 * 2), 2))
    );
    assert_eq!(render_mode3_bg_pixel(160, 0, &bg, &vram[..0x14000]), None);
    assert_eq!(render_mode3_bg_pixel(0, 240, &bg, &vram[..0x14000]), None);
}

/// Video memory with one 16-colour tile (id 1) and one 256-colour tile (id 2)
/// and a map at screen block 8 that shows them.
fn tiled_vram() -> Vec<u8> {
    let mut vram = vec![0u8; VRAM_SIZE];
    // 16-colour tile 1 at char base 0: pixel (x, y) has value (x + y) % 16.
    for y in 0..8 {
        for x in 0..8 {
            let value = ((x + y) % 16) as u8;
            let at = 32 + y * 4 + x / 2;
            vram[at] |= value << (x % 2 * 4);
        }
    }
    // 256-colour tile 2 at char base 1: pixel (x, y) has value 8 * y + x + 100.
    for y in 0..8 {
        for x in 0..8 {
            vram[0x4000 + 2 * 64 + y * 8 + x] = (8 * y + x + 100) as u8;
        }
    }
    vram
}

fn put_entry(vram: &mut [u8], block: usize, map_x: usize, map_y: usize, entry: u16) {
    let at = block * 0x800 + (map_y * 32 + map_x) * 2;
    vram[at] = entry as u8;
    vram[at + 1] = (entry >> 8) as u8;
}

#[test]
fn text_pixel_16_colours_with_flips_and_palettes() {
    let mut vram = tiled_vram();
    put_entry(&mut vram, 8, 0, 0, 0x3001); // tile 1, palette 3
    put_entry(&mut vram, 8, 1, 0, 0x3401); // the same, flipped horizontally
    put_entry(&mut vram, 8, 2, 0, 0x3801); // flipped vertically
    put_entry(&mut vram, 8, 3, 0, 0xFC01); // both, palette 15
    let pals = palette();
    let bg = BgAttributes { map_base: 8, priority: 1, ..BgAttributes::new() };
    let pixel = |y: u16, x: u16| render_text_bg_pixel(y, x, 0, &bg, &vram[..0x10000], &pals[..256]);
    // Value 0 is transparent.
    assert_eq!(pixel(0, 0), None);
    assert_eq!(pixel(0, 1), Some(layer(LayerId::Bg(0), pals[3 * 16 + 1], 1)));
    assert_eq!(pixel(2, 5), Some(layer(LayerId::Bg(0), pals[3 * 16 + 7], 1)));
    assert_eq!(pixel(7, 7), Some(layer(LayerId::Bg(0), pals[3 * 16 + 14], 1)));
    // Horizontal flip: screen x 8 shows tile x 7.
    assert_eq!(pixel(0, 8), Some(layer(LayerId::Bg(0), pals[3 * 16 + 7], 1)));
    assert_eq!(pixel(0, 15), None);
    assert_eq!(pixel(1, 14), Some(layer(LayerId::Bg(0), pals[3 * 16 + 2], 1)));
    // Vertical flip: screen y 0 shows tile y 7.
    assert_eq!(pixel(0, 16), Some(layer(LayerId::Bg(0), pals[3 * 16 + 7], 1)));
    assert_eq!(pixel(7, 16), None);
    // Both, palette 15.
    assert_eq!(pixel(0, 24), Some(layer(LayerId::Bg(0), pals[15 * 16 + 14], 1)));
    assert_eq!(pixel(7, 31), None);
    // An empty map entry shows tile 0, which is all zero.
    assert_eq!(pixel(0, 32), None);
}

#[test]
fn text_pixel_256_colours() {
    let mut vram = tiled_vram();
    put_entry(&mut vram, 9, 4, 5, 0x0002);
    put_entry(&mut vram, 9, 5, 5, 0x0C02);
    let pals = palette();
    let bg = BgAttributes {
        map_base: 9,
        char_base: 1,
        palette_mode: BgPaletteMode::Pal256,
        priority: 2,
        ..BgAttributes::new()
    };
    let pixel = |y: u16, x: u16| render_text_bg_pixel(y, x, 3, &bg, &vram[..0x10000], &pals[..256]);
    assert_eq!(pixel(40, 32), Some(layer(LayerId::Bg(3), pals[100], 2)));
    assert_eq!(pixel(43, 38), Some(layer(LayerId::Bg(3), pals[100 + 8 * 3 + 6], 2)));
    assert_eq!(pixel(47, 39), Some(layer(LayerId::Bg(3), pals[163], 2)));
    // Flipped both ways: the far corner comes first.
    assert_eq!(pixel(40, 40), Some(layer(LayerId::Bg(3), pals[163], 2)));
    assert_eq!(pixel(47, 47), Some(layer(LayerId::Bg(3), pals[100], 2)));
    assert_eq!(pixel(40, 48), None);
}

#[test]
fn text_pixel_scrolls_and_picks_the_screen_block() {
    let mut vram = tiled_vram();
    // One visible tile in the top left corner of each of four screen blocks,
    // told apart by palette.
    for block in 0..4usize {
        put_entry(&mut vram, 4 + block, 0, 0, (block as u16 + 1) << 12 | 1);
    }
    let pals = palette();
    let at = |size_mode: u8, x_scroll: u16, y_scroll: u16, y: u16, x: u16| {
        let bg = BgAttributes { map_base: 4, size_mode, x_scroll, y_scroll, ..BgAttributes::new() };
        render_text_bg_pixel(y, x, 1, &bg, &vram[..0x10000], &pals[..256]).map(|l| l.color)
    };
    let color = |block: usize| Some(pals[(block + 1) * 16 + 1]);
    // Pixel (1, 0) of the tile has value 1.
    assert_eq!(at(0, 0, 0, 0, 1), color(0));
    // Size 0: every quadrant of the 512 pixels shows block 0.
    assert_eq!(at(0, 256, 0, 0, 1), color(0));
    assert_eq!(at(0, 0, 256, 0, 1), color(0));
    assert_eq!(at(0, 256, 256, 0, 1), color(0));
    // Size 1: two blocks side by side.
    assert_eq!(at(1, 256, 0, 0, 1), color(1));
    assert_eq!(at(1, 0, 256, 0, 1), color(0));
    assert_eq!(at(1, 256, 256, 0, 1), color(1));
    // Size 2: two blocks on top of each other.
    assert_eq!(at(2, 256, 0, 0, 1), color(0));
    assert_eq!(at(2, 0, 256, 0, 1), color(1));
    // Size 3: four blocks.
    assert_eq!(at(3, 0, 0, 0, 1), color(0));
    assert_eq!(at(3, 256, 0, 0, 1), color(1));
    assert_eq!(at(3, 0, 256, 0, 1), color(2));
    assert_eq!(at(3, 256, 256, 0, 1), color(3));
    // Scrolling wraps at 512.
    assert_eq!(at(3, 511, 0, 0, 2), color(0));
    assert_eq!(at(3, 300, 500, 12, 213), color(0));
    assert_eq!(at(3, 300, 500, 12 + 256, 213), color(2));
    // Screen coordinates are taken as they come.
    assert_eq!(at(0, 0, 0, 512, 513), color(0));
    assert_eq!(at(3, 2, 0, 0, 0xFFFF), color(0));
    assert_eq!(at(3, 1, 0, 0, 0xFFFF), None);
}

#[test]
fn text_pixel_outside_video_memory_is_transparent() {
    let vram = vec![0xFFu8; 0x10000];
    let pals = palette();
    // Map base 31 with a second screen block lies past 64 KiB.
    let bg = BgAttributes { map_base: 31, size_mode: 1, x_scroll: 256, ..BgAttributes::new() };
    assert_eq!(render_text_bg_pixel(0, 0, 0, &bg, &vram, &pals[..256]), None);
    // Tile 1023 of char base 3 lies past 64 KiB.
    let bg = BgAttributes { char_base: 3, palette_mode: BgPaletteMode::Pal256, ..BgAttributes::new() };
    assert_eq!(render_text_bg_pixel(0, 0, 0, &bg, &vram, &pals[..256]), None);
    // Char base 0 is inside: every entry is 0xFFFF, tile 1023 flipped, palette 15, pixel 15.
    let bg = BgAttributes::new();
    assert_eq!(
        render_text_bg_pixel(0, 0, 0, &bg, &vram, &pals[..256]),
        Some(layer(LayerId::Bg(0), pals[255], 0))
    );
}

#[test]
fn mode0_line_composes_by_priority() {
    let mut vram = tiled_vram();
    // Background 0 (priority 2) shows tile 1 everywhere on line 0 of block 8,
    // background 1 (priority 1) shows the 256-colour tile on block 9.
    for map_x in 0..32 {
        put_entry(&mut vram, 8, map_x, 0, 0x1001);
        put_entry(&mut vram, 9, map_x, 0, 0x0002);
    }
    let pals = palette();
    let regs = regs_from(&[
        (0x0400_0000, 0x0300),
        (0x0400_0008, 0x0802),
        (0x0400_000A, 0x0985),
    ]);
    let line = render_lcd_line(0, &regs, &vram, &pals);
    // Background 1 is opaque everywhere and has the lower priority number.
    for x in 0..240 {
        assert_eq!(line[x], pals[100 + x % 8]);
    }
    // With equal priorities background 0 wins where it is opaque.
    let regs = regs_from(&[
        (0x0400_0000, 0x0300),
        (0x0400_0008, 0x0801),
        (0x0400_000A, 0x0985),
    ]);
    let line = render_lcd_line(0, &regs, &vram, &pals);
    for x in 0..240 {
        let expected = if x % 8 == 0 { pals[100] } else { pals[16 + x % 8] };
        assert_eq!(line[x], expected);
    }
    // Switched off, background 1 leaves background 0 over the backdrop.
    let regs = regs_from(&[(0x0400_0000, 0x0100), (0x0400_0008, 0x0803)]);
    let line = render_lcd_line(0, &regs, &vram, &pals);
    for x in 0..240 {
        let expected = if x % 8 == 0 { pals[0] } else { pals[16 + x % 8] };
        assert_eq!(line[x], expected);
    }
}

#[test]
fn mode1_draws_two_tiled_backgrounds_only() {
    let mut vram = tiled_vram();
    for map_x in 0..32 {
        put_entry(&mut vram, 8, map_x, 0, 0x1001);
    }
    let pals = palette();
    let regs = regs_from(&[
        (0x0400_0000, 0x0F01),
        (0x0400_0008, 0x1F00),
        (0x0400_000A, 0x1F00),
        (0x0400_000C, 0x0800),
        (0x0400_000E, 0x0800),
    ]);
    // Backgrounds 2 and 3 would show the tile; mode 1 does not draw them.
    assert_eq!(render_lcd_line(0, &regs, &vram, &pals), [pals[0]; 240]);
    let bg_vram = &vram[..0x10000];
    let mut layers = [None; 6];
    render_mode1_backgrounds(&mut layers, 0, 1, &regs, bg_vram, &pals[..256]);
    assert_eq!(layers, [None; 6]);
    render_mode0_backgrounds(&mut layers, 0, 1, &regs, bg_vram, &pals[..256]);
    let shown = Some(layer(LayerId::Bg(2), pals[17], 0));
    assert_eq!(layers, [None, None, None, shown, Some(layer(LayerId::Bg(3), pals[17], 0)), None]);
}

#[test]
fn background_functions_leave_disabled_layers_alone() {
    let vram = tiled_vram();
    let pals = palette();
    let marker = Some(layer(LayerId::Obj, 0x1234, 0));
    let regs = regs_from(&[(0x0400_0000, 0x0000)]);
    for mode in 0..5 {
        let mut layers = [marker; 6];
        match mode {
            0 => render_mode0_backgrounds(&mut layers, 0, 0, &regs, &vram[..0x10000], &pals[..256]),
            1 => render_mode1_backgrounds(&mut layers, 0, 0, &regs, &vram[..0x10000], &pals[..256]),
            2 => render_mode3_backgrounds(&mut layers, 0, 0, &regs, &vram[..0x14000]),
            3 => render_mode4_backgrounds(&mut layers, 0, 0, &regs, &vram[..0x14000], &pals[..256]),
            _ => render_mode5_backgrounds(&mut layers, 0, 0, &regs, &vram[..0x14000]),
        }
        assert_eq!(layers, [marker; 6]);
    }
    // Enabled, a text background overwrites its layer even with nothing.
    let regs = regs_from(&[(0x0400_0000, 0x0F00)]);
    let mut layers = [marker; 6];
    render_mode0_backgrounds(&mut layers, 0, 0, &regs, &vram[..0x10000], &pals[..256]);
    assert_eq!(layers, [marker, None, None, None, None, marker]);
    // The bitmap goes to the layer of background 2.
    let regs = regs_from(&[(0x0400_0000, 0x0400), (0x0400_000C, 0x0001)]);
    let mut layers = [None; 6];
    render_mode3_backgrounds(&mut layers, 0, 0, &regs, &vram[..0x14000]);
    assert_eq!(layers, [None, None, None, Some(layer(LayerId::Bg(2), 0, 1)), None, None]);
    let mut layers = [marker; 6];
    render_mode4_backgrounds(&mut layers, 0, 0, &regs, &vram[..0x14000], &pals[..256]);
    assert_eq!(layers, [marker, marker, marker, None, marker, marker]);
}

#[test]
fn top_two_by_priority_then_order() {
    let a = layer(LayerId::Bg(0), 1, 2);
    let b = layer(LayerId::Bg(1), 2, 1);
    let c = layer(LayerId::Bg(2), 3, 1);
    let d = layer(LayerId::Bg(3), 4, 0);
    let back = layer(LayerId::Backdrop, 5, 4);
    assert_eq!(pick_top_two(&[]), (None, None));
    assert_eq!(pick_top_two(&[None, None]), (None, None));
    assert_eq!(pick_top_two(&[None, Some(a)]), (Some(a), None));
    // Of equals the first wins and the later one is not even second.
    assert_eq!(pick_top_two(&[Some(b), Some(c)]), (Some(b), None));
    assert_eq!(pick_top_two(&[Some(c), Some(b)]), (Some(c), None));
    // The second is what was on top before the top turned up.
    assert_eq!(pick_top_two(&[Some(a), Some(b), Some(c), Some(d)]), (Some(d), Some(b)));
    assert_eq!(pick_top_two(&[Some(d), Some(a), Some(b)]), (Some(d), None));
    assert_eq!(pick_top_two(&[Some(a), None, Some(d), Some(b)]), (Some(d), Some(a)));
    assert_eq!(pick_top_two_layers(&[None, None, None, None, None, Some(back)]), (back, None));
    assert_eq!(pick_top_two_layers(&[None, Some(a), Some(b), None, None, Some(back)]), (b, Some(a)));
    assert_eq!(pick_top_two_layers(&[None, None, None, Some(c), Some(d), Some(back)]), (d, Some(c)));
    // A background as far back as the backdrop still comes first.
    let far = layer(LayerId::Bg(3), 9, 4);
    assert_eq!(pick_top_two_layers(&[None, None, None, None, Some(far), Some(back)]), (far, None));
}

#[test]
fn copied_line_holds_every_colour_in_machine_order() {
    let line: Vec<u16> = (0..240u32).map(|i| (i * 257 + 0x1200) as u16).collect();
    let mut pixels = vec![0xEEu8; 500];
    copy_line(&mut pixels, &line);
    for i in 0..240 {
        assert_eq!(u16::from_ne_bytes([pixels[2 * i], pixels[2 * i + 1]]), line[i]);
    }
    assert_eq!(&pixels[480..], &[0xEE; 20]);
}

#[test]
fn screen_is_rendered_row_by_row_with_padding_left_alone() {
    let mut vram = vec![0u8; VRAM_SIZE];
    for i in 0..VRAM_SIZE / 2 {
        let color = (i as u16).wrapping_mul(0x0301) & 0x7FFF;
        vram[2 * i] = color as u8;
        vram[2 * i + 1] = (color >> 8) as u8;
    }
    let regs = regs_from(&[(0x0400_0000, 0x0403)]);
    let pals = palette();
    let stride = 500;
    let mut pixels = vec![0xEEu8; 160 * stride + 7];
    render_screen(&mut pixels, stride, &regs, &vram, &pals);
    for y in 0..160 {
        let line = render_lcd_line(y as u16, &regs, &vram, &pals);
        for x in 0..240 {
            let at = y * stride + 2 * x;
            assert_eq!(u16::from_ne_bytes([pixels[at], pixels[at + 1]]), line[x]);
        }
        assert_eq!(&pixels[y * stride + 480..(y + 1) * stride], &[0xEE; 20]);
    }
    assert_eq!(&pixels[160 * stride..], &[0xEE; 7]);
    // Rows may touch: a stride of exactly one line.
    let mut pixels = vec![0u8; 160 * 480];
    render_screen(&mut pixels, 480, &regs, &vram, &pals);
    let line = render_lcd_line(159, &regs, &vram, &pals);
    assert_eq!(u16::from_ne_bytes([pixels[159 * 480 + 478], pixels[159 * 480 + 479]]), line[239]);
}
