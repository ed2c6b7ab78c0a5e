//! The LCD controller: its register file and the scanline renderer.

use vstd::prelude::*;
use vstd::array::spec_array_update;
use vstd::slice::slice_subrange;
use crate::endian::{byte_of, le_u16_at, read_u16_at, write_native_u16_at};
use crate::util::{bit, bits, spec_bit, spec_bits};

verus! {

/// Colour depth of a tiled background.
#[derive(Copy, Clone, Debug, PartialEq, Eq, Structural)]
pub enum BgPaletteMode {
    /// 16 palettes of 16 colours, 4 bits per pixel.
    Pal16,
    /// One palette of 256 colours, 8 bits per pixel.
    Pal256,
}

/// Control and scroll registers of one background.
#[derive(Copy, Clone, Debug, PartialEq, Eq, Structural)]
pub struct BgAttributes {
    /// 0-3, lower is drawn on top.
    pub priority: u8,
    /// 0-3, in units of 16 KiB.
    pub char_base: u8,
    pub palette_mode: BgPaletteMode,
    /// 0-31, in units of 2 KiB.
    pub map_base: u8,
    /// 0-3, selects how many screen blocks the background spans.
    pub size_mode: u8,
    /// 0-511
    pub x_scroll: u16,
    /// 0-511
    pub y_scroll: u16,
}

impl BgAttributes {
    /// Every field lies within the range its register bits can hold.
    pub open spec fn wf(self) -> bool {
        &&& self.priority <= 3
        &&& self.char_base <= 3
        &&& self.map_base <= 31
        &&& self.size_mode <= 3
        &&& self.x_scroll <= 511
        &&& self.y_scroll <= 511
    }

    /// The attributes after a write of `data` to the control register: the
    /// scroll offsets are kept.
    pub open spec fn with_control(self, data: u16) -> BgAttributes {
        BgAttributes {
            priority: spec_bits(data as u32, 0, 1) as u8,
            char_base: spec_bits(data as u32, 2, 3) as u8,
            palette_mode: if spec_bit(data as u32, 7) {
                BgPaletteMode::Pal256
            } else {
                BgPaletteMode::Pal16
            },
            map_base: spec_bits(data as u32, 8, 12) as u8,
            size_mode: spec_bits(data as u32, 14, 15) as u8,
            x_scroll: self.x_scroll,
            y_scroll: self.y_scroll,
        }
    }

    /// Attributes as they are after reset: everything zero, 16-colour tiles.
    pub open spec fn initial() -> BgAttributes {
        BgAttributes {
            priority: 0,
            char_base: 0,
            palette_mode: BgPaletteMode::Pal16,
            map_base: 0,
            size_mode: 0,
            x_scroll: 0,
            y_scroll: 0,
        }
    }

    pub fn new() -> (r: BgAttributes)
        ensures
            r == Self::initial(),
            r.wf(),
    {
        BgAttributes {
            priority: 0,
            char_base: 0,
            palette_mode: BgPaletteMode::Pal16,
            map_base: 0,
            size_mode: 0,
            x_scroll: 0,
            y_scroll: 0,
        }
    }
}

/// The display control register and the four background register sets.
pub struct LcdControllerRegs {
    // DISPCNT
    pub video_mode: u8,
    pub active_display_page: u8,
    pub forced_blank_enabled: bool,
    pub bg_layer_enabled: [bool; 4],
    // BGxCNT, BGxHOFS, BGxVOFS
    pub bg_attributes: [BgAttributes; 4],
}

proof fn lemma_register_fields(d: u16)
    by (bit_vector)
    ensures
        spec_bits(d as u32, 0, 2) <= 7,
        spec_bits(d as u32, 0, 1) <= 3,
        spec_bits(d as u32, 2, 3) <= 3,
        spec_bits(d as u32, 8, 12) <= 31,
        spec_bits(d as u32, 14, 15) <= 3,
        spec_bits(d as u32, 0, 8) <= 511,
        spec_bits(d as u32, 0, 9) <= 1023,
        spec_bits(d as u32, 12, 15) <= 15,
{
}

impl LcdControllerRegs {
    /// Every field lies within the range its register bits can hold.
    pub open spec fn wf(self) -> bool {
        &&& self.video_mode <= 7
        &&& self.active_display_page <= 1
        &&& forall|i: int| 0 <= i < 4 ==> (#[trigger] self.bg_attributes[i]).wf()
    }

    /// The registers after a write of `data` to the display control register.
    pub open spec fn with_dispcnt(self, data: u16) -> LcdControllerRegs {
        LcdControllerRegs {
            video_mode: spec_bits(data as u32, 0, 2) as u8,
            active_display_page: if spec_bit(data as u32, 4) {
                1u8
            } else {
                0u8
            },
            forced_blank_enabled: spec_bit(data as u32, 7),
            bg_layer_enabled: [
                spec_bit(data as u32, 8),
                spec_bit(data as u32, 9),
                spec_bit(data as u32, 10),
                spec_bit(data as u32, 11),
            ],
            bg_attributes: self.bg_attributes,
        }
    }

    /// The registers with the attributes of background `i` replaced.
    pub open spec fn with_bg(self, i: int, attributes: BgAttributes) -> LcdControllerRegs {
        LcdControllerRegs {
            video_mode: self.video_mode,
            active_display_page: self.active_display_page,
            forced_blank_enabled: self.forced_blank_enabled,
            bg_layer_enabled: self.bg_layer_enabled,
            bg_attributes: spec_array_update(self.bg_attributes, i, attributes),
        }
    }

    /// The registers after a write of `data` to the control register of
    /// background `i`.
    pub open spec fn with_bgcnt(self, i: int, data: u16) -> LcdControllerRegs {
        self.with_bg(i, self.bg_attributes[i].with_control(data))
    }

    /// The registers after a write of `data` to the horizontal scroll
    /// register of background `i`: the low nine bits become the offset.
    pub open spec fn with_bghofs(self, i: int, data: u16) -> LcdControllerRegs {
        self.with_bg(
            i,
            BgAttributes { x_scroll: spec_bits(data as u32, 0, 8) as u16, ..self.bg_attributes[i] },
        )
    }

    /// The registers after a write of `data` to the vertical scroll register
    /// of background `i`.
    pub open spec fn with_bgvofs(self, i: int, data: u16) -> LcdControllerRegs {
        self.with_bg(
            i,
            BgAttributes { y_scroll: spec_bits(data as u32, 0, 8) as u16, ..self.bg_attributes[i] },
        )
    }

    /// Whether a register is mapped at `address`; only the low twelve bits
    /// of the address are looked at.
    pub open spec fn recognises(address: u32) -> bool {
        let offset = address & 0xFFF;
        offset == 0x000 || (0x008 <= offset <= 0x01E && offset % 2 == 0)
    }

    /// The registers after a write of the low half of `data` to `address`.
    /// A write to an address where no register is mapped changes nothing.
    pub open spec fn spec_write(self, address: u32, data: u32) -> LcdControllerRegs {
        let offset = address & 0xFFF;
        let half = data as u16;
        if offset == 0x000 {
            self.with_dispcnt(half)
        } else if offset == 0x008 {
            self.with_bgcnt(0, half)
        } else if offset == 0x00A {
            self.with_bgcnt(1, half)
        } else if offset == 0x00C {
            self.with_bgcnt(2, half)
        } else if offset == 0x00E {
            self.with_bgcnt(3, half)
        } else if offset == 0x010 {
            self.with_bghofs(0, half)
        } else if offset == 0x012 {
            self.with_bgvofs(0, half)
        } else if offset == 0x014 {
            self.with_bghofs(1, half)
        } else if offset == 0x016 {
            self.with_bgvofs(1, half)
        } else if offset == 0x018 {
            self.with_bghofs(2, half)
        } else if offset == 0x01A {
            self.with_bgvofs(2, half)
        } else if offset == 0x01C {
            self.with_bghofs(3, half)
        } else if offset == 0x01E {
            self.with_bgvofs(3, half)
        } else {
            self
        }
    }

    /// Registers as they are after reset: mode 0, nothing enabled.
    pub open spec fn initial() -> LcdControllerRegs {
        LcdControllerRegs {
            video_mode: 0,
            active_display_page: 0,
            forced_blank_enabled: false,
            bg_layer_enabled: [false, false, false, false],
            bg_attributes: [
                BgAttributes::initial(),
                BgAttributes::initial(),
                BgAttributes::initial(),
                BgAttributes::initial(),
            ],
        }
    }

    pub fn new() -> (r: LcdControllerRegs)
        ensures
            r == Self::initial(),
            r.wf(),
    {
        let r = LcdControllerRegs {
            video_mode: 0,
            active_display_page: 0,
            forced_blank_enabled: false,
            bg_layer_enabled: [false; 4],
            bg_attributes: [BgAttributes::new(); 4],
        };
        assert(r.bg_layer_enabled =~= Self::initial().bg_layer_enabled);
        assert(r.bg_attributes =~= Self::initial().bg_attributes);
        r
    }

    /// Writes the low half of `data` to the register at `address`. Returns
    /// whether a register is mapped there; if none is, nothing changes.
    pub fn write(&mut self, address: u32, data: u32) -> (recognised: bool)
        requires
            old(self).wf(),
        ensures
            final(self).wf(),
            *final(self) == old(self).spec_write(address, data),
            recognised == Self::recognises(address),
    {
        let half: u16 = data as u16;
        let offset: u32 = address & 0xFFF;
        if offset == 0x000 {
            self.write_dispcnt(half);
        } else if offset == 0x008 {
            self.write_bgcnt(0, half);
        } else if offset == 0x00A {
            self.write_bgcnt(1, half);
        } else if offset == 0x00C {
            self.write_bgcnt(2, half);
        } else if offset == 0x00E {
            self.write_bgcnt(3, half);
        } else if offset == 0x010 {
            self.write_bghofs(0, half);
        } else if offset == 0x012 {
            self.write_bgvofs(0, half);
        } else if offset == 0x014 {
            self.write_bghofs(1, half);
        } else if offset == 0x016 {
            self.write_bgvofs(1, half);
        } else if offset == 0x018 {
            self.write_bghofs(2, half);
        } else if offset == 0x01A {
            self.write_bgvofs(2, half);
        } else if offset == 0x01C {
            self.write_bghofs(3, half);
        } else if offset == 0x01E {
            self.write_bgvofs(3, half);
        } else {
            return false;
        }
        true
    }

    pub fn write_dispcnt(&mut self, data: u16)
        requires
            old(self).wf(),
        ensures
            final(self).wf(),
            *final(self) == old(self).with_dispcnt(data),
    {
        proof {
            lemma_register_fields(data);
        }
        let d: u32 = data as u32;
        self.video_mode = bits(d, 0, 2) as u8;
        self.active_display_page = if bit(d, 4) { 1 } else { 0 };
        self.forced_blank_enabled = bit(d, 7);
        self.bg_layer_enabled[0] = bit(d, 8);
        self.bg_layer_enabled[1] = bit(d, 9);
        self.bg_layer_enabled[2] = bit(d, 10);
        self.bg_layer_enabled[3] = bit(d, 11);
        assert(self.bg_layer_enabled =~= old(self).with_dispcnt(data).bg_layer_enabled);
    }

    pub fn write_bgcnt(&mut self, i: usize, data: u16)
        requires
            old(self).wf(),
            i < 4,
        ensures
            final(self).wf(),
            *final(self) == old(self).with_bgcnt(i as int, data),
    {
        proof {
            lemma_register_fields(data);
        }
        let d: u32 = data as u32;
        let mut bg = self.bg_attributes[i];
        bg.priority = bits(d, 0, 1) as u8;
        bg.char_base = bits(d, 2, 3) as u8;
        bg.palette_mode = if bit(d, 7) { BgPaletteMode::Pal256 } else { BgPaletteMode::Pal16 };
        bg.map_base = bits(d, 8, 12) as u8;
        bg.size_mode = bits(d, 14, 15) as u8;
        self.bg_attributes[i] = bg;
    }

    pub fn write_bghofs(&mut self, i: usize, data: u16)
        requires
            old(self).wf(),
            i < 4,
        ensures
            final(self).wf(),
            *final(self) == old(self).with_bghofs(i as int, data),
    {
        proof {
            lemma_register_fields(data);
        }
        let mut bg = self.bg_attributes[i];
        bg.x_scroll = bits(data as u32, 0, 8) as u16;
        self.bg_attributes[i] = bg;
    }

    pub fn write_bgvofs(&mut self, i: usize, data: u16)
        requires
            old(self).wf(),
            i < 4,
        ensures
            final(self).wf(),
            *final(self) == old(self).with_bgvofs(i as int, data),
    {
        proof {
            lemma_register_fields(data);
        }
        let mut bg = self.bg_attributes[i];
        bg.y_scroll = bits(data as u32, 0, 8) as u16;
        self.bg_attributes[i] = bg;
    }
}


/// Pixels in a line.
pub const SCREEN_WIDTH: usize = 240;

/// Bytes of video memory that tiled backgrounds can reach.
pub const BG_VRAM_SIZE: usize = 0x1_0000;

/// Bytes of video memory that bitmap backgrounds can reach.
pub const BITMAP_VRAM_SIZE: usize = 0x1_4000;

/// Palette entries that backgrounds can reach.
pub const BG_PALETTE_SIZE: usize = 256;

/// Bytes between the two pages of a double-buffered bitmap.
pub const PAGE_SIZE: usize = 0xA000;

/// Lines on the screen.
pub const SCREEN_HEIGHT: usize = 160;

/// The background that bitmap modes draw into.
pub const BITMAP_BG_LAYER: usize = 2;

/// Who put a layer up for a pixel.
#[derive(Copy, Clone, Debug, PartialEq, Eq, Structural)]
pub enum LayerId {
    Obj,
    Bg(u8),
    Backdrop,
}

/// What one source offers for one pixel.
#[derive(Copy, Clone, Debug, PartialEq, Eq, Structural)]
pub struct Layer {
    pub id: LayerId,
    /// 15-bit colour, five bits each of red, green and blue from bit 0 up.
    pub color: u16,
    /// 0-4, lower is drawn on top.
    pub priority: u8,
    /// Objects only.
    pub force_alpha_blend: bool,
}

/// Index of the layer on top among the first `n` of `layers`, or -1 if none
/// of them is present. On top is the lowest priority; of several with the
/// same priority, the first.
pub open spec fn top_index(layers: Seq<Option<Layer>>, n: int) -> int
    decreases n,
{
    if n <= 0 {
        -1
    } else {
        let before = top_index(layers, n - 1);
        match layers[n - 1] {
            None => before,
            Some(layer) => if before < 0 || layer.priority < layers[before].unwrap().priority {
                n - 1
            } else {
                before
            },
        }
    }
}

/// The layer on top of `layers` and the layer that was on top among those
/// in front of it, if any.
pub open spec fn spec_pick_top_two(layers: Seq<Option<Layer>>) -> (Option<Layer>, Option<Layer>) {
    let first = top_index(layers, layers.len() as int);
    if first < 0 {
        (None, None)
    } else {
        let second = top_index(layers, first);
        (layers[first], if second < 0 {
            None
        } else {
            layers[second]
        })
    }
}

/// The index that `top_index` gives names a layer that is present, that no
/// present layer beats in priority, and that every present layer in front
/// of it loses to.
pub proof fn lemma_top_index(layers: Seq<Option<Layer>>, n: int)
    requires
        0 <= n <= layers.len(),
    ensures
        -1 <= top_index(layers, n) < n,
        top_index(layers, n) < 0 <==> forall|j: int| 0 <= j < n ==> layers[j] is None,
        top_index(layers, n) >= 0 ==> {
            let top = top_index(layers, n);
            &&& layers[top] is Some
            &&& forall|j: int|
                0 <= j < n && layers[j] is Some ==> layers[top].unwrap().priority <= (
                #[trigger] layers[j]).unwrap().priority
            &&& forall|j: int|
                0 <= j < top && layers[j] is Some ==> layers[top].unwrap().priority < (
                #[trigger] layers[j]).unwrap().priority
        },
    decreases n,
{
    if n > 0 {
        lemma_top_index(layers, n - 1);
    }
}

/// Picks the layer on top and the one that was on top before it turned up.
pub fn pick_top_two(layers: &[Option<Layer>]) -> (r: (Option<Layer>, Option<Layer>))
    ensures
        r == spec_pick_top_two(layers@),
{
    let mut first: Option<Layer> = None;
    let mut second: Option<Layer> = None;
    let ghost mut first_at: int = -1;
    let mut i: usize = 0;
    while i < layers.len()
        invariant
            i <= layers@.len(),
            first_at == top_index(layers@, i as int),
            first_at < i,
            first_at < 0 ==> first is None && second is None,
            first_at >= 0 ==> first == layers@[first_at] && first is Some && second == (if top_index(
                layers@,
                first_at,
            ) < 0 {
                None::<Layer>
            } else {
                layers@[top_index(layers@, first_at)]
            }),
        decreases layers@.len() - i,
    {
        match layers[i] {
            Some(layer) => {
                let better = match first {
                    None => true,
                    Some(top) => layer.priority < top.priority,
                };
                if better {
                    proof {
                        lemma_top_index(layers@, i as int);
                    }
                    second = first;
                    first = Some(layer);
                    proof {
                        first_at = i as int;
                    }
                }
            },
            None => {},
        }
        i = i + 1;
    }
    (first, second)
}

/// Picks the two topmost of the six layers of a pixel. One of them has to
/// be present; the backdrop always is.
pub fn pick_top_two_layers(layers: &[Option<Layer>; 6]) -> (r: (Layer, Option<Layer>))
    requires
        exists|i: int| 0 <= i < 6 && layers@[i] is Some,
    ensures
        (Some(r.0), r.1) == spec_pick_top_two(layers@),
{
    proof {
        lemma_top_index(layers@, 6);
    }
    let (first, second) = pick_top_two(layers.as_slice());
    match first {
        Some(top) => (top, second),
        None => {
            assert(false);
            (Layer { id: LayerId::Backdrop, color: 0, priority: 4, force_alpha_blend: false }, None)
        },
    }
}

/// Position of a screen coordinate in a scrolled background of 512 pixels:
/// the pixel inside its tile, the tile inside its screen block of 32 tiles,
/// and the screen block.
pub open spec fn bg_coords(screen: u16, scroll: u16) -> (int, int, int) {
    let bg = (screen + scroll) % 512;
    (bg % 8, bg / 8 % 32, bg / 256)
}

/// Which of the screen blocks of a background holds the block at
/// (`submap_x`, `submap_y`): backgrounds of size 0 have one block, of size
/// 1 two side by side, of size 2 two on top of each other, of size 3 four.
pub open spec fn screenblock_index(size_mode: u8, submap_x: int, submap_y: int) -> int {
    if size_mode == 0 {
        0
    } else if size_mode == 1 {
        submap_x
    } else if size_mode == 2 {
        submap_y
    } else {
        submap_y * 2 + submap_x
    }
}

/// What a tiled background offers for the pixel at (`screen_x`,
/// `screen_y`): the colour of the tile pixel that the map entry under the
/// scrolled position points to, or nothing if that pixel is transparent
/// (value 0) or lies outside video memory.
pub open spec fn text_bg_pixel(
    screen_y: u16,
    screen_x: u16,
    bg_id: u8,
    bg_regs: BgAttributes,
    vram: Seq<u8>,
    pals: Seq<u16>,
) -> Option<Layer> {
    let (tile_x, map_x, submap_x) = bg_coords(screen_x, bg_regs.x_scroll);
    let (tile_y, map_y, submap_y) = bg_coords(screen_y, bg_regs.y_scroll);
    let block = screenblock_index(bg_regs.size_mode, submap_x, submap_y);
    let entry_at = (bg_regs.map_base + block) * 0x800 + (map_y * 32 + map_x) * 2;
    if entry_at + 2 > vram.len() {
        None
    } else {
        let entry = le_u16_at(vram, entry_at) as u32;
        let tile_id = spec_bits(entry, 0, 9);
        let pal_id = spec_bits(entry, 12, 15);
        let flipped_x = if spec_bit(entry, 10) {
            7 - tile_x
        } else {
            tile_x
        };
        let flipped_y = if spec_bit(entry, 11) {
            7 - tile_y
        } else {
            tile_y
        };
        let char_base = bg_regs.char_base * 0x4000;
        let pixel_at = match bg_regs.palette_mode {
            BgPaletteMode::Pal16 => char_base + tile_id * 32 + flipped_y * 4 + flipped_x / 2,
            BgPaletteMode::Pal256 => char_base + tile_id * 64 + flipped_y * 8 + flipped_x,
        };
        if pixel_at >= vram.len() {
            None
        } else {
            let byte = vram[pixel_at];
            let pixel = match bg_regs.palette_mode {
                BgPaletteMode::Pal16 => if flipped_x % 2 == 1 {
                    (byte >> 4u8) & 0xF
                } else {
                    byte & 0xF
                },
                BgPaletteMode::Pal256 => byte,
            };
            let palette_index = match bg_regs.palette_mode {
                BgPaletteMode::Pal16 => pixel + 16 * pal_id,
                BgPaletteMode::Pal256 => pixel as int,
            };
            if pixel != 0 && palette_index < pals.len() {
                Some(
                    Layer {
                        id: LayerId::Bg(bg_id),
                        color: pals[palette_index],
                        priority: bg_regs.priority,
                        force_alpha_blend: false,
                    },
                )
            } else {
                None
            }
        }
    }
}

fn calc_bg_coords(screen: u16, scroll: u16) -> (r: (usize, usize, usize))
    ensures
        (r.0 as int, r.1 as int, r.2 as int) == bg_coords(screen, scroll),
        r.0 < 8,
        r.1 < 32,
        r.2 < 2,
{
    let bg: u32 = (screen as u32 + scroll as u32) % 512;
    ((bg % 8) as usize, (bg / 8 % 32) as usize, (bg / 256) as usize)
}

pub fn render_text_bg_pixel(
    screen_y: u16,
    screen_x: u16,
    bg_id: u8,
    bg_regs: &BgAttributes,
    vram: &[u8],
    pals: &[u16],
) -> (r: Option<Layer>)
    requires
        bg_regs.wf(),
    ensures
        r == text_bg_pixel(screen_y, screen_x, bg_id, *bg_regs, vram@, pals@),
{
    // Calculate tile and background coordinates
    let (tile_x, map_x, submap_x) = calc_bg_coords(screen_x, bg_regs.x_scroll);
    let (tile_y, map_y, submap_y) = calc_bg_coords(screen_y, bg_regs.y_scroll);

    // Calculate map base/screenblock and offset
    let screenblock_offset: usize = if bg_regs.size_mode == 0 {
        0
    } else if bg_regs.size_mode == 1 {
        submap_x
    } else if bg_regs.size_mode == 2 {
        submap_y
    } else {
        submap_y * 2 + submap_x
    };
    let screenblock_base: usize = (bg_regs.map_base as usize + screenblock_offset) * 0x800;
    let entry_at: usize = screenblock_base + (map_y * 32 + map_x) * 2;
    if entry_at + 2 > vram.len() {
        return None;
    }
    // Read map entry from VRAM
    let entry16: u16 = read_u16_at(vram, entry_at);
    proof {
        lemma_register_fields(entry16);
    }
    let entry: u32 = entry16 as u32;
    let tile_id: usize = bits(entry, 0, 9) as usize;
    let h_flip = bit(entry, 10);
    let v_flip = bit(entry, 11);
    let pal_id: usize = bits(entry, 12, 15) as usize;

    // Calculate character data offset
    let flipped_tile_x: usize = if h_flip {
        7 - tile_x
    } else {
        tile_x
    };
    let flipped_tile_y: usize = if v_flip {
        7 - tile_y
    } else {
        tile_y
    };
    let charmap_base: usize = bg_regs.char_base as usize * 0x4000;

    // Read pixel data and compute palette index
    let pixel_at: usize = match bg_regs.palette_mode {
        BgPaletteMode::Pal16 => charmap_base + tile_id * 32 + flipped_tile_y * 4 + flipped_tile_x / 2,
        BgPaletteMode::Pal256 => charmap_base + tile_id * 64 + flipped_tile_y * 8 + flipped_tile_x,
    };
    if pixel_at >= vram.len() {
        return None;
    }
    let byte: u8 = vram[pixel_at];
    let pixel: u8 = match bg_regs.palette_mode {
        BgPaletteMode::Pal16 => if flipped_tile_x % 2 == 1 {
            (byte >> 4u8) & 0xF
        } else {
            byte & 0xF
        },
        BgPaletteMode::Pal256 => byte,
    };
    let palette_index: usize = match bg_regs.palette_mode {
        BgPaletteMode::Pal16 => pixel as usize + 16 * pal_id,
        BgPaletteMode::Pal256 => pixel as usize,
    };
    if pixel != 0 && palette_index < pals.len() {
        // Read palette entry
        Some(
            Layer {
                id: LayerId::Bg(bg_id),
                color: pals[palette_index],
                priority: bg_regs.priority,
                force_alpha_blend: false,
            },
        )
    } else {
        None
    }
}

/// What the bitmap of mode 3 offers for a pixel: a screen of 240 by 160
/// colours, never transparent. Outside the screen it offers nothing.
pub open spec fn mode3_bg_pixel(screen_y: u16, screen_x: u16, bg_regs: BgAttributes, vram: Seq<u8>) -> Option<Layer> {
    if screen_y >= 160 || screen_x >= 240 {
        None
    } else {
        Some(
            Layer {
                id: LayerId::Bg(2),
                color: le_u16_at(vram, (screen_y * 240 + screen_x) * 2),
                priority: bg_regs.priority,
                force_alpha_blend: false,
            },
        )
    }
}

/// What the bitmap of mode 4 offers for a pixel: a screen of 240 by 160
/// palette indices, of which 0 is transparent, on one of two pages.
pub open spec fn mode4_bg_pixel(
    screen_y: u16,
    screen_x: u16,
    bg_regs: BgAttributes,
    display_page: u8,
    vram: Seq<u8>,
    bg_pals: Seq<u16>,
) -> Option<Layer> {
    if screen_y >= 160 || screen_x >= 240 {
        None
    } else {
        let palette_index = vram[display_page * 0xA000 + screen_y * 240 + screen_x];
        if palette_index != 0 {
            Some(
                Layer {
                    id: LayerId::Bg(2),
                    color: bg_pals[palette_index as int],
                    priority: bg_regs.priority,
                    force_alpha_blend: false,
                },
            )
        } else {
            None
        }
    }
}

/// What the bitmap of mode 5 offers for a pixel: a screen of 160 by 128
/// colours, never transparent, on one of two pages.
pub open spec fn mode5_bg_pixel(
    screen_y: u16,
    screen_x: u16,
    bg_regs: BgAttributes,
    display_page: u8,
    vram: Seq<u8>,
) -> Option<Layer> {
    if screen_y >= 128 || screen_x >= 160 {
        None
    } else {
        Some(
            Layer {
                id: LayerId::Bg(2),
                color: le_u16_at(vram, display_page * 0xA000 + (screen_y * 160 + screen_x) * 2),
                priority: bg_regs.priority,
                force_alpha_blend: false,
            },
        )
    }
}

pub fn render_mode3_bg_pixel(screen_y: u16, screen_x: u16, bg_regs: &BgAttributes, vram: &[u8]) -> (r: Option<
    Layer,
>)
    requires
        vram@.len() >= BITMAP_VRAM_SIZE,
    ensures
        r == mode3_bg_pixel(screen_y, screen_x, *bg_regs, vram@),
{
    if screen_y >= 160 || screen_x >= 240 {
        return None;
    }
    let pixel_offset: usize = (screen_y as usize * 240 + screen_x as usize) * 2;
    let color: u16 = read_u16_at(vram, pixel_offset);
    Some(Layer { id: LayerId::Bg(BITMAP_BG_LAYER as u8), color, priority: bg_regs.priority, force_alpha_blend: false })
}

pub fn render_mode4_bg_pixel(
    screen_y: u16,
    screen_x: u16,
    bg_regs: &BgAttributes,
    display_page: u8,
    vram: &[u8],
    bg_pals: &[u16],
) -> (r: Option<Layer>)
    requires
        vram@.len() >= BITMAP_VRAM_SIZE,
        bg_pals@.len() >= BG_PALETTE_SIZE,
        display_page <= 1,
    ensures
        r == mode4_bg_pixel(screen_y, screen_x, *bg_regs, display_page, vram@, bg_pals@),
{
    if screen_y >= 160 || screen_x >= 240 {
        return None;
    }
    let page_offset: usize = screen_y as usize * 240 + screen_x as usize;
    let page_base: usize = display_page as usize * 0xA000;

    let palette_index: u8 = vram[page_base + page_offset];
    let color: u16 = bg_pals[palette_index as usize];

    if palette_index != 0 {
        Some(
            Layer {
                id: LayerId::Bg(BITMAP_BG_LAYER as u8),
                color,
                priority: bg_regs.priority,
                force_alpha_blend: false,
            },
        )
    } else {
        None
    }
}

pub fn render_mode5_bg_pixel(
    screen_y: u16,
    screen_x: u16,
    bg_regs: &BgAttributes,
    display_page: u8,
    vram: &[u8],
) -> (r: Option<Layer>)
    requires
        vram@.len() >= BITMAP_VRAM_SIZE,
        display_page <= 1,
    ensures
        r == mode5_bg_pixel(screen_y, screen_x, *bg_regs, display_page, vram@),
{
    if screen_y >= 128 || screen_x >= 160 {
        return None;
    }
    let page_offset: usize = (screen_y as usize * 160 + screen_x as usize) * 2;
    let page_base: usize = display_page as usize * 0xA000;

    let color: u16 = read_u16_at(vram, page_base + page_offset);

    Some(Layer { id: LayerId::Bg(BITMAP_BG_LAYER as u8), color, priority: bg_regs.priority, force_alpha_blend: false })
}

/// The layers of a pixel after the first `count` tiled backgrounds had
/// their say. The layer of background `i` is layer `i + 1`. A background
/// that is switched off leaves its layer as it was.
pub open spec fn text_layers(
    layers: Seq<Option<Layer>>,
    count: int,
    screen_y: u16,
    screen_x: u16,
    regs: LcdControllerRegs,
    bg_vram: Seq<u8>,
    bg_pals: Seq<u16>,
) -> Seq<Option<Layer>> {
    Seq::new(
        layers.len(),
        |i: int|
            if 1 <= i <= count && regs.bg_layer_enabled[i - 1] {
                text_bg_pixel(screen_y, screen_x, (i - 1) as u8, regs.bg_attributes[i - 1], bg_vram, bg_pals)
            } else {
                layers[i]
            },
    )
}

/// The layers of a pixel after the bitmap background had its say with
/// `pixel`. The bitmap is background 2, whose layer is layer 3.
pub open spec fn bitmap_layers(layers: Seq<Option<Layer>>, regs: LcdControllerRegs, pixel: Option<Layer>) -> Seq<
    Option<Layer>,
> {
    if regs.bg_layer_enabled[2] {
        layers.update(3, pixel)
    } else {
        layers
    }
}

fn render_text_backgrounds(
    layers: &mut [Option<Layer>; 6],
    count: usize,
    screen_y: u16,
    screen_x: u16,
    regs: &LcdControllerRegs,
    bg_vram: &[u8],
    bg_pals: &[u16],
)
    requires
        regs.wf(),
        count <= 4,
    ensures
        final(layers)@ == text_layers(old(layers)@, count as int, screen_y, screen_x, *regs, bg_vram@, bg_pals@),
{
    let mut bg: usize = 0;
    while bg < count
        invariant
            bg <= count <= 4,
            regs.wf(),
            layers@ =~= text_layers(old(layers)@, bg as int, screen_y, screen_x, *regs, bg_vram@, bg_pals@),
        decreases count - bg,
    {
        if regs.bg_layer_enabled[bg] {
            layers[bg + 1] = render_text_bg_pixel(
                screen_y,
                screen_x,
                bg as u8,
                &regs.bg_attributes[bg],
                bg_vram,
                bg_pals,
            );
        }
        bg = bg + 1;
    }
}

/// Mode 0: four tiled backgrounds.
pub fn render_mode0_backgrounds(
    layers: &mut [Option<Layer>; 6],
    screen_y: u16,
    screen_x: u16,
    regs: &LcdControllerRegs,
    bg_vram: &[u8],
    bg_pals: &[u16],
)
    requires
        regs.wf(),
    ensures
        final(layers)@ == text_layers(old(layers)@, 4, screen_y, screen_x, *regs, bg_vram@, bg_pals@),
{
    render_text_backgrounds(layers, 4, screen_y, screen_x, regs, bg_vram, bg_pals);
}

/// Mode 1: two tiled backgrounds.
pub fn render_mode1_backgrounds(
    layers: &mut [Option<Layer>; 6],
    screen_y: u16,
    screen_x: u16,
    regs: &LcdControllerRegs,
    bg_vram: &[u8],
    bg_pals: &[u16],
)
    requires
        regs.wf(),
    ensures
        final(layers)@ == text_layers(old(layers)@, 2, screen_y, screen_x, *regs, bg_vram@, bg_pals@),
{
    render_text_backgrounds(layers, 2, screen_y, screen_x, regs, bg_vram, bg_pals);
}

pub fn render_mode3_backgrounds(
    layers: &mut [Option<Layer>; 6],
    screen_y: u16,
    screen_x: u16,
    regs: &LcdControllerRegs,
    vram: &[u8],
)
    requires
        vram@.len() >= BITMAP_VRAM_SIZE,
    ensures
        final(layers)@ == bitmap_layers(
            old(layers)@,
            *regs,
            mode3_bg_pixel(screen_y, screen_x, regs.bg_attributes[2], vram@),
        ),
{
    if regs.bg_layer_enabled[BITMAP_BG_LAYER] {
        layers[BITMAP_BG_LAYER + 1] = render_mode3_bg_pixel(
            screen_y,
            screen_x,
            &regs.bg_attributes[BITMAP_BG_LAYER],
            vram,
        );
    }
}

pub fn render_mode4_backgrounds(
    layers: &mut [Option<Layer>; 6],
    screen_y: u16,
    screen_x: u16,
    regs: &LcdControllerRegs,
    vram: &[u8],
    bg_pals: &[u16],
)
    requires
        regs.wf(),
        vram@.len() >= BITMAP_VRAM_SIZE,
        bg_pals@.len() >= BG_PALETTE_SIZE,
    ensures
        final(layers)@ == bitmap_layers(
            old(layers)@,
            *regs,
            mode4_bg_pixel(screen_y, screen_x, regs.bg_attributes[2], regs.active_display_page, vram@, bg_pals@),
        ),
{
    if regs.bg_layer_enabled[BITMAP_BG_LAYER] {
        layers[BITMAP_BG_LAYER + 1] = render_mode4_bg_pixel(
            screen_y,
            screen_x,
            &regs.bg_attributes[BITMAP_BG_LAYER],
            regs.active_display_page,
            vram,
            bg_pals,
        );
    }
}

pub fn render_mode5_backgrounds(
    layers: &mut [Option<Layer>; 6],
    screen_y: u16,
    screen_x: u16,
    regs: &LcdControllerRegs,
    vram: &[u8],
)
    requires
        regs.wf(),
        vram@.len() >= BITMAP_VRAM_SIZE,
    ensures
        final(layers)@ == bitmap_layers(
            old(layers)@,
            *regs,
            mode5_bg_pixel(screen_y, screen_x, regs.bg_attributes[2], regs.active_display_page, vram@),
        ),
{
    if regs.bg_layer_enabled[BITMAP_BG_LAYER] {
        layers[BITMAP_BG_LAYER + 1] = render_mode5_bg_pixel(
            screen_y,
            screen_x,
            &regs.bg_attributes[BITMAP_BG_LAYER],
            regs.active_display_page,
            vram,
        );
    }
}

/// The backdrop: the first palette entry, behind everything else.
pub open spec fn backdrop(pals: Seq<u16>) -> Layer {
    Layer { id: LayerId::Backdrop, color: pals[0], priority: 4, force_alpha_blend: false }
}

/// The six layers of the pixel at (`screen_x`, `screen_y`), in the order
/// objects, backgrounds 0 to 3, backdrop. Objects offer nothing. Modes 0
/// and 1 draw tiled backgrounds from the first 64 KiB of video memory,
/// modes 3 to 5 a bitmap from the first 80 KiB; any other mode draws no
/// background. Backgrounds use the first 256 palette entries.
pub open spec fn pixel_layers(screen_y: u16, screen_x: u16, regs: LcdControllerRegs, vram: Seq<u8>, pals: Seq<u16>) -> Seq<
    Option<Layer>,
> {
    let bg_vram = vram.subrange(0, BG_VRAM_SIZE as int);
    let bitmap_vram = vram.subrange(0, BITMAP_VRAM_SIZE as int);
    let bg_pals = pals.subrange(0, BG_PALETTE_SIZE as int);
    let empty = Seq::new(6, |i: int| None::<Layer>);
    let backgrounds = if regs.video_mode == 0 {
        text_layers(empty, 4, screen_y, screen_x, regs, bg_vram, bg_pals)
    } else if regs.video_mode == 1 {
        text_layers(empty, 2, screen_y, screen_x, regs, bg_vram, bg_pals)
    } else if regs.video_mode == 3 {
        bitmap_layers(empty, regs, mode3_bg_pixel(screen_y, screen_x, regs.bg_attributes[2], bitmap_vram))
    } else if regs.video_mode == 4 {
        bitmap_layers(
            empty,
            regs,
            mode4_bg_pixel(
                screen_y,
                screen_x,
                regs.bg_attributes[2],
                regs.active_display_page,
                bitmap_vram,
                bg_pals,
            ),
        )
    } else if regs.video_mode == 5 {
        bitmap_layers(
            empty,
            regs,
            mode5_bg_pixel(screen_y, screen_x, regs.bg_attributes[2], regs.active_display_page, bitmap_vram),
        )
    } else {
        empty
    };
    backgrounds.update(5, Some(backdrop(bg_pals)))
}

/// The colour of the pixel at (`screen_x`, `screen_y`): that of the layer
/// on top. Nothing is blended.
pub open spec fn pixel_color(screen_y: u16, screen_x: u16, regs: LcdControllerRegs, vram: Seq<u8>, pals: Seq<u16>) -> u16 {
    spec_pick_top_two(pixel_layers(screen_y, screen_x, regs, vram, pals)).0.unwrap().color
}

/// Renders line `screen_y` of the screen.
pub fn render_lcd_line(screen_y: u16, regs: &LcdControllerRegs, vram: &[u8], pals: &[u16]) -> (buf: [u16; 240])
    requires
        regs.wf(),
        vram@.len() >= BITMAP_VRAM_SIZE,
        pals@.len() >= BG_PALETTE_SIZE,
    ensures
        forall|x: int| 0 <= x < 240 ==> #[trigger] buf[x] == pixel_color(screen_y, x as u16, *regs, vram@, pals@),
{
    let bg_vram = slice_subrange(vram, 0, BG_VRAM_SIZE);
    let bg_pals = slice_subrange(pals, 0, BG_PALETTE_SIZE);
    let bitmap_vram = slice_subrange(vram, 0, BITMAP_VRAM_SIZE);

    let mut buf: [u16; 240] = [0; 240];

    let mut screen_x: u16 = 0;
    while screen_x < 240
        invariant
            screen_x <= 240,
            regs.wf(),
                bg_vram@ == vram@.subrange(0, BG_VRAM_SIZE as int),
            bitmap_vram@ == vram@.subrange(0, BITMAP_VRAM_SIZE as int),
            bg_pals@ == pals@.subrange(0, BG_PALETTE_SIZE as int),
            vram@.len() >= BITMAP_VRAM_SIZE,
            pals@.len() >= BG_PALETTE_SIZE,
            forall|x: int|
                0 <= x < screen_x ==> #[trigger] buf[x] == pixel_color(screen_y, x as u16, *regs, vram@, pals@),
        decreases 240 - screen_x,
    {
        // [OBJ, BG0, BG1, BG2, BG3, backdrop]
        let mut layers: [Option<Layer>; 6] = [None; 6];
        assert(layers@ =~= Seq::new(6, |i: int| None::<Layer>));

        // Background layers
        if regs.video_mode == 0 {
            render_mode0_backgrounds(&mut layers, screen_y, screen_x, regs, bg_vram, bg_pals);
        } else if regs.video_mode == 1 {
            render_mode1_backgrounds(&mut layers, screen_y, screen_x, regs, bg_vram, bg_pals);
        } else if regs.video_mode == 3 {
            render_mode3_backgrounds(&mut layers, screen_y, screen_x, regs, bitmap_vram);
        } else if regs.video_mode == 4 {
            render_mode4_backgrounds(&mut layers, screen_y, screen_x, regs, bitmap_vram, bg_pals);
        } else if regs.video_mode == 5 {
            render_mode5_backgrounds(&mut layers, screen_y, screen_x, regs, bitmap_vram);
        }
        // Backdrop layer
        layers[5] = Some(
            Layer { id: LayerId::Backdrop, color: bg_pals[0], priority: 4, force_alpha_blend: false },
        );
        assert(layers@[5] is Some);

        let (top_layer, _bottom_layer) = pick_top_two_layers(&layers);
        let output: u16 = top_layer.color;

        buf[screen_x as usize] = output;
        screen_x = screen_x + 1;
    }
    buf
}

/// The pixel that is drawn is the one no other candidate beats: every
/// layer put up for a pixel has a priority at least that of the layer whose
/// colour the pixel takes.
pub proof fn lemma_top_layer_wins(screen_y: u16, screen_x: u16, regs: LcdControllerRegs, vram: Seq<u8>, pals: Seq<u16>)
    ensures
        ({
            let layers = pixel_layers(screen_y, screen_x, regs, vram, pals);
            let top = spec_pick_top_two(layers).0;
            &&& top is Some
            &&& top.unwrap().color == pixel_color(screen_y, screen_x, regs, vram, pals)
            &&& forall|i: int|
                0 <= i < 6 && layers[i] is Some ==> top.unwrap().priority <= (#[trigger] layers[i]).unwrap().priority
        }),
{
    let layers = pixel_layers(screen_y, screen_x, regs, vram, pals);
    lemma_top_index(layers, 6);
    assert(layers[5] is Some);
}

/// With all four backgrounds switched off every pixel takes the backdrop
/// colour, the first palette entry.
pub proof fn lemma_backdrop_only(screen_y: u16, screen_x: u16, regs: LcdControllerRegs, vram: Seq<u8>, pals: Seq<u16>)
    requires
        forall|i: int| 0 <= i < 4 ==> !regs.bg_layer_enabled[i],
        pals.len() >= BG_PALETTE_SIZE,
    ensures
        pixel_color(screen_y, screen_x, regs, vram, pals) == pals[0],
{
    let layers = pixel_layers(screen_y, screen_x, regs, vram, pals);
    assert(!regs.bg_layer_enabled[0] && !regs.bg_layer_enabled[1] && !regs.bg_layer_enabled[2]
        && !regs.bg_layer_enabled[3]);
    assert forall|i: int| 0 <= i < 5 implies layers[i] is None by {}
    lemma_top_index(layers, 6);
}

/// Whether the two bytes at `at` hold `color` in one of the two byte orders.
pub open spec fn holds_color(pixels: Seq<u8>, at: int, color: u16) -> bool {
    let low = byte_of(color as u32, 0);
    let high = byte_of(color as u32, 1);
    (pixels[at] == low && pixels[at + 1] == high) || (pixels[at] == high && pixels[at + 1] == low)
}

/// Index of byte `j` of row `y` in a pixel buffer whose rows are `stride`
/// bytes apart.
pub open spec fn row_byte(stride: int, y: int, j: int) -> int {
    y * stride + j
}

/// Copies a rendered line to `offset` in a pixel buffer of 16-bit colours
/// in the byte order of the machine.
fn copy_line_at(pixels: &mut [u8], offset: usize, line: &[u16])
    requires
        line@.len() == SCREEN_WIDTH,
        offset + 2 * SCREEN_WIDTH <= old(pixels)@.len(),
    ensures
        final(pixels)@.len() == old(pixels)@.len(),
        forall|x: int| 0 <= x < 240 ==> #[trigger] holds_color(final(pixels)@, offset + 2 * x, line@[x]),
        forall|k: int|
            0 <= k < final(pixels)@.len() && !(offset <= k < offset + 480) ==> final(pixels)@[k] == old(
                pixels,
            )@[k],
{
    let len: usize = pixels.len();
    let mut i: usize = 0;
    while i < 240
        invariant
            i <= 240,
            line@.len() == 240,
            pixels@.len() == old(pixels)@.len(),
            offset + 480 <= len == pixels@.len(),
            forall|x: int| 0 <= x < i ==> #[trigger] holds_color(pixels@, offset + 2 * x, line@[x]),
            forall|k: int|
                0 <= k < pixels@.len() && !(offset <= k < offset + 2 * i) ==> pixels@[k] == old(pixels)@[k],
        decreases 240 - i,
    {
        let ghost before = pixels@;
        write_native_u16_at(pixels, offset + i * 2, line[i]);
        proof {
            assert forall|x: int| 0 <= x < i + 1 implies #[trigger] holds_color(
                pixels@,
                offset + 2 * x,
                line@[x],
            ) by {
                if x < i {
                    assert(holds_color(before, offset + 2 * x, line@[x]));
                }
            }
        }
        i = i + 1;
    }
}

/// Copies a rendered line into a pixel buffer of 16-bit colours in the byte
/// order of the machine.
pub fn copy_line(rgbx_pixels: &mut [u8], line: &[u16])
    requires
        line@.len() == SCREEN_WIDTH,
        old(rgbx_pixels)@.len() >= 2 * SCREEN_WIDTH,
    ensures
        final(rgbx_pixels)@.len() == old(rgbx_pixels)@.len(),
        forall|x: int| 0 <= x < 240 ==> #[trigger] holds_color(final(rgbx_pixels)@, 2 * x, line@[x]),
        forall|k: int| 480 <= k < final(rgbx_pixels)@.len() ==> final(rgbx_pixels)@[k] == old(rgbx_pixels)@[k],
{
    copy_line_at(rgbx_pixels, 0, line);
    proof {
        assert forall|x: int| 0 <= x < 240 implies #[trigger] holds_color(rgbx_pixels@, 2 * x, line@[x]) by {
            assert(holds_color(rgbx_pixels@, 0 + 2 * x, line@[x]));
        }
    }
}

/// Renders the whole screen into a pixel buffer of 16-bit colours in the
/// byte order of the machine, whose rows are `stride` bytes apart.
pub fn render_screen(pixels: &mut [u8], stride: usize, regs: &LcdControllerRegs, vram: &[u8], pals: &[u16])
    requires
        regs.wf(),
        vram@.len() >= BITMAP_VRAM_SIZE,
        pals@.len() >= BG_PALETTE_SIZE,
        stride >= 2 * SCREEN_WIDTH,
        SCREEN_HEIGHT * stride <= old(pixels)@.len(),
    ensures
        final(pixels)@.len() == old(pixels)@.len(),
        forall|y: int, x: int|
            0 <= y < 160 && 0 <= x < 240 ==> #[trigger] holds_color(
                final(pixels)@,
                row_byte(stride as int, y, 2 * x),
                pixel_color(y as u16, x as u16, *regs, vram@, pals@),
            ),
        forall|y: int, j: int|
            0 <= y < 160 && 480 <= j < stride ==> final(pixels)@[#[trigger] row_byte(stride as int, y, j)] == old(
                pixels,
            )@[row_byte(stride as int, y, j)],
        forall|k: int| 160 * stride <= k < final(pixels)@.len() ==> final(pixels)@[k] == old(pixels)@[k],
{
    let len: usize = pixels.len();
    let mut screen_y: usize = 0;
    while screen_y < 160
        invariant
            screen_y <= 160,
            regs.wf(),
                vram@.len() >= BITMAP_VRAM_SIZE,
            pals@.len() >= BG_PALETTE_SIZE,
            stride >= 480,
            160 * stride <= len == pixels@.len(),
            pixels@.len() == old(pixels)@.len(),
            forall|y: int, x: int|
                0 <= y < screen_y && 0 <= x < 240 ==> #[trigger] holds_color(
                    pixels@,
                    row_byte(stride as int, y, 2 * x),
                    pixel_color(y as u16, x as u16, *regs, vram@, pals@),
                ),
            forall|y: int, j: int|
                0 <= y < screen_y && 480 <= j < stride ==> pixels@[#[trigger] row_byte(stride as int, y, j)] == old(
                    pixels,
                )@[row_byte(stride as int, y, j)],
            forall|k: int| screen_y * stride <= k < pixels@.len() ==> pixels@[k] == old(pixels)@[k],
        decreases 160 - screen_y,
    {
        assert((screen_y + 1) * stride <= 160 * stride && (screen_y + 1) * stride == screen_y * stride + stride
            && 0 <= screen_y * stride) by (nonlinear_arith)
            requires
                screen_y < 160,
                stride >= 0,
        ;
        let line_buf = render_lcd_line(screen_y as u16, regs, vram, pals);
        let ghost before = pixels@;
        let offset: usize = screen_y * stride;
        copy_line_at(pixels, offset, line_buf.as_slice());
        proof {
            assert forall|y: int, x: int| 0 <= y < screen_y + 1 && 0 <= x < 240 implies #[trigger] holds_color(
                pixels@,
                row_byte(stride as int, y, 2 * x),
                pixel_color(y as u16, x as u16, *regs, vram@, pals@),
            ) by {
                if y < screen_y {
                    assert((y + 1) * stride <= screen_y * stride && (y + 1) * stride == y * stride + stride && 0
                        <= y * stride) by (nonlinear_arith)
                        requires
                            0 <= y < screen_y,
                            stride >= 0,
                    ;
                    assert(holds_color(
                        before,
                        row_byte(stride as int, y, 2 * x),
                        pixel_color(y as u16, x as u16, *regs, vram@, pals@),
                    ));
                } else {
                    assert(holds_color(pixels@, offset + 2 * x, line_buf@[x]));
                }
            }
            assert forall|y: int, j: int| 0 <= y < screen_y + 1 && 480 <= j < stride implies pixels@[#[trigger] row_byte(
                stride as int,
                y,
                j,
            )] == old(pixels)@[row_byte(stride as int, y, j)] by {
                assert((y + 1) * stride <= (screen_y + 1) * stride && (y + 1) * stride == y * stride + stride && 0
                    <= y * stride && (y < screen_y ==> (y + 1) * stride <= screen_y * stride)) by (nonlinear_arith)
                    requires
                        0 <= y < screen_y + 1,
                        stride >= 0,
                ;
            }
        }
        screen_y = screen_y + 1;
    }
}

} // verus!
