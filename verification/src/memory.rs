//! The memory unit: it decodes bus addresses to regions, applies their
//! timing and performs the read or write.

use vstd::prelude::*;
use crate::endian::{
    byte_of, le_u16_at, le_u32_at, read_u16_at, read_u32_at, with_le_u16, with_le_u32, write_u16_at,
};
use crate::ppu::LcdControllerRegs;
use crate::scheduler::{wait_cycles, GeneratorState, Task, WaitCycles};
use crate::system::{AccessWidth, Bus, MemoryRequest, OperationType};

verus! {

pub const BIOS_SIZE: usize = 0x4000;

pub const EWRAM_SIZE: usize = 0x4_0000;

pub const IWRAM_SIZE: usize = 0x8000;

pub const PALETTE_SIZE: usize = 0x400;

pub const VRAM_SIZE: usize = 0x1_8000;

pub const OAM_SIZE: usize = 0x400;

/// Largest cartridge image the address map has room for.
pub const CART_ROM_LIMIT: usize = 0x200_0000;

/// Largest cartridge save memory the address map has room for.
pub const CART_SRAM_LIMIT: usize = 0x1_0000;

/// First byte of video memory that holds object tiles.
pub const VRAM_OBJ_START: u32 = 0x1_0000;

pub open spec fn spec_concat16(msb: u16, lsb: u16) -> u32 {
    (msb as u32) << 16 | lsb as u32
}

pub open spec fn spec_mirror_16to32(x: u16) -> u32 {
    spec_concat16(x, x)
}

pub open spec fn spec_mirror_8to16(x: u8) -> u16 {
    (x as u16) << 8 | x as u16
}

pub open spec fn spec_mirror_8to32(x: u8) -> u32 {
    (x as u32) << 24 | (x as u32) << 16 | (x as u32) << 8 | x as u32
}

/// Joins two half-words into a word.
#[inline(always)]
pub fn concat16(msb: u16, lsb: u16) -> (r: u32)
    ensures
        r == spec_concat16(msb, lsb),
{
    (msb as u32) << 16 | lsb as u32
}

/// Repeats a half-word in both halves of a word.
#[inline(always)]
pub fn mirror_16to32(x: u16) -> (r: u32)
    ensures
        r == spec_mirror_16to32(x),
{
    concat16(x, x)
}

/// Repeats a byte in both halves of a half-word.
#[inline(always)]
pub fn mirror_8to16(x: u8) -> (r: u16)
    ensures
        r == spec_mirror_8to16(x),
{
    (x as u16) << 8 | x as u16
}

/// Repeats a byte in all four lanes of a word.
#[inline(always)]
pub fn mirror_8to32(x: u8) -> (r: u32)
    ensures
        r == spec_mirror_8to32(x),
{
    let x: u32 = x as u32;
    x << 24 | x << 16 | x << 8 | x
}

/// The byte lane of `data` that an 8-bit access at `offset` addresses.
pub open spec fn spec_lane8(data: u32, offset: u32) -> u8 {
    byte_of(data, offset % 4)
}

/// The half-word lane of `data` that a 16-bit access at `offset` addresses.
pub open spec fn spec_lane16(data: u32, offset: u32) -> u16 {
    if offset % 4 < 2 {
        (data & 0xFFFF) as u16
    } else {
        (data >> 16) as u16
    }
}

pub fn lane8(data: u32, offset: u32) -> (r: u8)
    ensures
        r == spec_lane8(data, offset),
{
    ((data >> (8 * (offset % 4))) & 0xFF) as u8
}

pub fn lane16(data: u32, offset: u32) -> (r: u16)
    ensures
        r == spec_lane16(data, offset),
{
    if offset % 4 < 2 {
        (data & 0xFFFF) as u16
    } else {
        (data >> 16) as u16
    }
}

/// Start of the naturally aligned unit of `size` bytes that holds `offset`.
pub open spec fn align_down(offset: u32, size: u32) -> u32 {
    (offset - offset % size) as u32
}

/// Whether an access of `width` at `offset` lies inside a buffer of `len` bytes.
pub open spec fn access_fits(len: nat, offset: u32, width: AccessWidth) -> bool {
    match width {
        AccessWidth::Bit8 => offset < len,
        AccessWidth::Bit16 => align_down(offset, 2) + 2 <= len,
        AccessWidth::Bit32 => align_down(offset, 4) + 4 <= len,
    }
}

/// What a read of `width` at `offset` puts on the bus. A word is returned
/// as it is, a half-word repeated in both halves, a byte in all four lanes.
/// Wider accesses ignore the low address bits.
pub open spec fn read_word(memory: Seq<u8>, offset: u32, width: AccessWidth) -> u32 {
    match width {
        AccessWidth::Bit8 => spec_mirror_8to32(memory[offset as int]),
        AccessWidth::Bit16 => spec_mirror_16to32(le_u16_at(memory, align_down(offset, 2) as int)),
        AccessWidth::Bit32 => le_u32_at(memory, align_down(offset, 4) as int),
    }
}

/// The buffer after a write of `width` at `offset`: it takes the lanes of
/// `data` that the access addresses and ignores the others.
pub open spec fn write_word(memory: Seq<u8>, offset: u32, width: AccessWidth, data: u32) -> Seq<u8> {
    match width {
        AccessWidth::Bit8 => memory.update(offset as int, spec_lane8(data, offset)),
        AccessWidth::Bit16 => with_le_u16(memory, align_down(offset, 2) as int, spec_lane16(data, offset)),
        AccessWidth::Bit32 => with_le_u32(memory, align_down(offset, 4) as int, data),
    }
}

/// As `write_word`, for memory that cannot store single bytes: a byte
/// write fills the whole half-word with the byte.
pub open spec fn write_word_wide(memory: Seq<u8>, offset: u32, width: AccessWidth, data: u32) -> Seq<u8> {
    match width {
        AccessWidth::Bit8 => with_le_u16(
            memory,
            align_down(offset, 2) as int,
            spec_mirror_8to16(spec_lane8(data, offset)),
        ),
        _ => write_word(memory, offset, width, data),
    }
}

/// Buffer and bus data after the access `op` of `width` at `offset`.
pub open spec fn ram_access(memory: Seq<u8>, data: u32, offset: u32, op: OperationType, width: AccessWidth) -> (
    Seq<u8>,
    u32,
) {
    match op {
        OperationType::Read { .. } => (memory, read_word(memory, offset, width)),
        OperationType::Write => (write_word(memory, offset, width, data), data),
    }
}

/// As `ram_access`, for memory that cannot store single bytes.
pub open spec fn video_access(memory: Seq<u8>, data: u32, offset: u32, op: OperationType, width: AccessWidth) -> (
    Seq<u8>,
    u32,
) {
    match op {
        OperationType::Read { .. } => (memory, read_word(memory, offset, width)),
        OperationType::Write => (write_word_wide(memory, offset, width, data), data),
    }
}

proof fn lemma_lanes(b0: u8, b1: u8, b2: u8, b3: u8, w: u32, h: u16)
    by (bit_vector)
    ensures
        spec_concat16(crate::endian::le_u16(b2, b3), crate::endian::le_u16(b0, b1)) == crate::endian::le_u32(
            b0,
            b1,
            b2,
            b3,
        ),
        byte_of(crate::endian::le_u16(b0, b1) as u32, 0) == b0,
        byte_of(crate::endian::le_u16(b0, b1) as u32, 1) == b1,
        byte_of((w & 0xFFFF) as u16 as u32, 0) == byte_of(w, 0),
        byte_of((w & 0xFFFF) as u16 as u32, 1) == byte_of(w, 1),
        byte_of((w >> 16) as u16 as u32, 0) == byte_of(w, 2),
        byte_of((w >> 16) as u16 as u32, 1) == byte_of(w, 3),
        crate::endian::le_u32(byte_of(w, 0), byte_of(w, 1), byte_of(w, 2), byte_of(w, 3)) == w,
        crate::endian::le_u16(byte_of(w, 0), byte_of(w, 1)) == (w & 0xFFFF) as u16,
        crate::endian::le_u16(byte_of(w, 2), byte_of(w, 3)) == (w >> 16) as u16,
        crate::endian::le_u16(byte_of(h as u32, 0), byte_of(h as u32, 1)) == h,
        (h & 0xFF) as u8 == byte_of(h as u32, 0),
        (h >> 8) as u8 == byte_of(h as u32, 1),
{
}

/// One access to memory on a 32-bit bus.
pub fn do_iwram_rw32(data: &mut u32, memory: &mut Vec<u8>, offset: u32, op: OperationType, width: AccessWidth)
    requires
        access_fits(old(memory)@.len(), offset, width),
    ensures
        (final(memory)@, *final(data)) == ram_access(old(memory)@, *old(data), offset, op, width),
        final(memory)@.len() == old(memory)@.len(),
{
    match op {
        OperationType::Read { .. } => {
            *data = match width {
                AccessWidth::Bit8 => mirror_8to32(memory[offset as usize]),
                AccessWidth::Bit16 => mirror_16to32(read_u16_at(memory.as_slice(), (offset - offset % 2) as usize)),
                AccessWidth::Bit32 => read_u32_at(memory.as_slice(), (offset - offset % 4) as usize),
            };
        },
        OperationType::Write => match width {
            AccessWidth::Bit8 => {
                memory[offset as usize] = lane8(*data, offset);
            },
            AccessWidth::Bit16 => {
                write_u16_at(memory.as_mut_slice(), (offset - offset % 2) as usize, lane16(*data, offset));
            },
            AccessWidth::Bit32 => {
                crate::endian::write_u32_at(memory.as_mut_slice(), (offset - offset % 4) as usize, *data);
            },
        },
    }
}

/// What one access on a 16-bit bus does to the half-word latch `data` and
/// to the buffer: a read loads the half-word that holds `offset`; a write
/// stores the low byte of the latch at `offset` if it is a byte write, and
/// the whole latch otherwise.
pub open spec fn half_access(memory: Seq<u8>, data: u16, offset: u32, op: OperationType, width: AccessWidth) -> (
    Seq<u8>,
    u16,
) {
    match op {
        OperationType::Read { .. } => (memory, le_u16_at(memory, align_down(offset, 2) as int)),
        OperationType::Write => (spec_write16(memory, offset, data, width), data),
    }
}

/// The buffer after a store from a half-word latch.
pub open spec fn spec_write16(memory: Seq<u8>, offset: u32, data: u16, width: AccessWidth) -> Seq<u8> {
    match width {
        AccessWidth::Bit8 => memory.update(offset as int, byte_of(data as u32, 0)),
        _ => with_le_u16(memory, align_down(offset, 2) as int, data),
    }
}

/// Stores from a half-word latch.
pub fn do_write16(memory: &mut Vec<u8>, offset: usize, data: u16, width: AccessWidth)
    requires
        offset < old(memory)@.len(),
        offset < 0x1_0000_0000,
        old(memory)@.len() % 2 == 0,
    ensures
        final(memory)@ == spec_write16(old(memory)@, offset as u32, data, width),
        final(memory)@.len() == old(memory)@.len(),
{
    match width {
        AccessWidth::Bit8 => {
            proof {
                lemma_lanes(0, 0, 0, 0, 0, data);
            }
            memory[offset] = (data & 0xFF) as u8;
        },
        AccessWidth::Bit16 | AccessWidth::Bit32 => {
            write_u16_at(memory.as_mut_slice(), offset - offset % 2, data);
        },
    }
}

/// One access through a half-word latch.
pub fn do_ewram_rw16(data: &mut u16, memory: &mut Vec<u8>, offset: u32, op: OperationType, width: AccessWidth)
    requires
        offset < old(memory)@.len(),
        old(memory)@.len() % 2 == 0,
    ensures
        (final(memory)@, *final(data)) == half_access(old(memory)@, *old(data), offset, op, width),
        final(memory)@.len() == old(memory)@.len(),
{
    match op {
        OperationType::Read { .. } => {
            *data = read_u16_at(memory.as_slice(), (offset - offset % 2) as usize);
        },
        OperationType::Write => {
            do_write16(memory, offset as usize, *data, width);
        },
    }
}

/// One access to memory on a 16-bit bus. A word access is two half-word
/// accesses, low half first; the outcome is that of the same access on a
/// 32-bit bus.
pub fn do_ewram_rw(data: &mut u32, memory: &mut Vec<u8>, offset: u32, op: OperationType, width: AccessWidth)
    requires
        offset < old(memory)@.len(),
        old(memory)@.len() % 4 == 0,
    ensures
        (final(memory)@, *final(data)) == ram_access(old(memory)@, *old(data), offset, op, width),
        final(memory)@.len() == old(memory)@.len(),
{
    let ghost before = memory@;
    let word: u32 = *data;
    match width {
        AccessWidth::Bit8 => {
            let mut latch: u16 = lane8(word, offset) as u16;
            proof {
                lemma_lanes(before[offset - offset % 2], before[offset - offset % 2 + 1], 0, 0, 0, latch);
                lemma_byte_in_half(spec_lane8(word, offset));
            }
            do_ewram_rw16(&mut latch, memory, offset, op, width);
            if let OperationType::Read { .. } = op {
                let byte: u8 = if offset % 2 == 1 {
                    (latch >> 8) as u8
                } else {
                    (latch & 0xFF) as u8
                };
                proof {
                    lemma_lanes(0, 0, 0, 0, 0, latch);
                }
                *data = mirror_8to32(byte);
            }
        },
        AccessWidth::Bit16 => {
            let mut latch: u16 = lane16(word, offset);
            do_ewram_rw16(&mut latch, memory, offset, op, width);
            if let OperationType::Read { .. } = op {
                *data = mirror_16to32(latch);
            }
        },
        AccessWidth::Bit32 => {
            let base: u32 = offset - offset % 4;
            let mut low_latch: u16 = (word & 0xFFFF) as u16;
            let mut high_latch: u16 = (word >> 16) as u16;
            do_ewram_rw16(&mut low_latch, memory, base, op, width);
            do_ewram_rw16(&mut high_latch, memory, base + 2, op, width);
            proof {
                lemma_lanes(before[base as int], before[base + 1], before[base + 2], before[base + 3], word, 0);
            }
            if let OperationType::Read { .. } = op {
                *data = concat16(high_latch, low_latch);
            }
        },
    }
}

proof fn lemma_byte_in_half(b: u8)
    by (bit_vector)
    ensures
        byte_of(b as u16 as u32, 0) == b,
{
}

/// One access to video memory, which sits on a 16-bit bus and cannot store
/// single bytes: a byte write fills its half-word with the byte.
pub fn do_read_write16(data: &mut u32, memory: &mut Vec<u8>, offset: u32, op: OperationType, width: AccessWidth)
    requires
        offset < old(memory)@.len(),
        old(memory)@.len() % 4 == 0,
    ensures
        (final(memory)@, *final(data)) == video_access(old(memory)@, *old(data), offset, op, width),
        final(memory)@.len() == old(memory)@.len(),
{
    match (op, width) {
        (OperationType::Write, AccessWidth::Bit8) => {
            do_write16(memory, offset as usize, mirror_8to16(lane8(*data, offset)), AccessWidth::Bit16);
        },
        _ => {
            do_ewram_rw(data, memory, offset, op, width);
        },
    }
}

/// After a word is written, each byte lane reads back as the byte the word
/// holds there, repeated in all four lanes; each half-word lane reads back
/// as its half-word, repeated in both halves; and the word reads back whole.
pub proof fn lemma_word_write_then_narrow_reads(memory: Seq<u8>, offset: u32, w: u32)
    requires
        access_fits(memory.len(), offset, AccessWidth::Bit32),
    ensures
        ({
            let base = align_down(offset, 4);
            let after = write_word(memory, offset, AccessWidth::Bit32, w);
            &&& after.len() == memory.len()
            &&& forall|lane: u32|
                0 <= lane < 4 ==> #[trigger] read_word(after, (base + lane) as u32, AccessWidth::Bit8)
                    == spec_mirror_8to32(byte_of(w, lane))
            &&& read_word(after, base, AccessWidth::Bit16) == spec_mirror_16to32((w & 0xFFFF) as u16)
            &&& read_word(after, (base + 1) as u32, AccessWidth::Bit16) == spec_mirror_16to32((w & 0xFFFF) as u16)
            &&& read_word(after, (base + 2) as u32, AccessWidth::Bit16) == spec_mirror_16to32((w >> 16) as u16)
            &&& read_word(after, (base + 3) as u32, AccessWidth::Bit16) == spec_mirror_16to32((w >> 16) as u16)
            &&& forall|lane: u32|
                0 <= lane < 4 ==> #[trigger] read_word(after, (base + lane) as u32, AccessWidth::Bit32) == w
        }),
{
    lemma_lanes(0, 0, 0, 0, w, 0);
}


/// The regions of the address map, told apart by the top byte of an address.
#[derive(Copy, Clone, Debug, PartialEq, Eq, Structural)]
pub enum Region {
    Bios,
    Ewram,
    Iwram,
    Mmio,
    Palette,
    Vram,
    Oam,
    CartRom,
    CartSram,
    Unmapped,
}

/// Access times of the cartridge, in cycles. They depend on the cartridge
/// and on how the system is set up, so whoever builds the memory unit
/// supplies them.
#[derive(Copy, Clone, Debug, PartialEq, Eq, Structural)]
pub struct CartTiming {
    /// A half-word from ROM that does not follow the previous access.
    pub rom_first: u64,
    /// A half-word from ROM that follows the previous access.
    pub rom_next: u64,
    /// An access to save memory.
    pub sram: u64,
}

impl CartTiming {
    /// Every access takes at least one cycle, and the cycles of the two
    /// half-word accesses that make a word access can be added up.
    pub open spec fn wf(self) -> bool {
        &&& 1 <= self.rom_first
        &&& 1 <= self.rom_next
        &&& 1 <= self.sram
        &&& self.rom_first + self.rom_next <= u64::MAX
        &&& self.rom_next + self.rom_next <= u64::MAX
    }
}

/// Where the memory task stands between two resumptions.
#[derive(Copy, Clone, Debug, PartialEq, Eq, Structural)]
pub enum MemoryState {
    /// Waiting for a request.
    Idle,
    /// Holding the bus busy until the wait states of `request` are over.
    Busy { request: MemoryRequest },
}

/// The region that `address` belongs to.
pub open spec fn spec_region_of(address: u32) -> Region {
    let top = address >> 24;
    if top == 0x0 {
        Region::Bios
    } else if top == 0x2 {
        Region::Ewram
    } else if top == 0x3 {
        Region::Iwram
    } else if top == 0x4 {
        Region::Mmio
    } else if top == 0x5 {
        Region::Palette
    } else if top == 0x6 {
        Region::Vram
    } else if top == 0x7 {
        Region::Oam
    } else if 0x8 <= top <= 0xD {
        Region::CartRom
    } else if top == 0xE {
        Region::CartSram
    } else {
        Region::Unmapped
    }
}

pub fn region_of(address: u32) -> (r: Region)
    ensures
        r == spec_region_of(address),
{
    let top: u32 = address >> 24;
    if top == 0x0 {
        Region::Bios
    } else if top == 0x2 {
        Region::Ewram
    } else if top == 0x3 {
        Region::Iwram
    } else if top == 0x4 {
        Region::Mmio
    } else if top == 0x5 {
        Region::Palette
    } else if top == 0x6 {
        Region::Vram
    } else if top == 0x7 {
        Region::Oam
    } else if 0x8 <= top && top <= 0xD {
        Region::CartRom
    } else if top == 0xE {
        Region::CartSram
    } else {
        Region::Unmapped
    }
}

/// Offset of `address` inside the buffer of `region`. Each region repeats
/// over its part of the address space; video memory repeats every 128 KiB
/// with its last 32 KiB shown twice.
pub open spec fn spec_region_offset(region: Region, address: u32) -> u32 {
    match region {
        Region::Bios => address % 0x4000,
        Region::Ewram => address % 0x4_0000,
        Region::Iwram => address % 0x8000,
        Region::Palette => address % 0x400,
        Region::Vram => {
            let o = address % 0x2_0000;
            if o >= 0x1_8000 {
                (o - 0x8000) as u32
            } else {
                o
            }
        },
        Region::Oam => address % 0x400,
        Region::CartRom => address % 0x200_0000,
        Region::CartSram => address % 0x1_0000,
        _ => address,
    }
}

pub fn region_offset(region: Region, address: u32) -> (r: u32)
    ensures
        r == spec_region_offset(region, address),
{
    match region {
        Region::Bios => address % 0x4000,
        Region::Ewram => address % 0x4_0000,
        Region::Iwram => address % 0x8000,
        Region::Palette => address % 0x400,
        Region::Vram => {
            let o: u32 = address % 0x2_0000;
            if o >= 0x1_8000 {
                o - 0x8000
            } else {
                o
            }
        },
        Region::Oam => address % 0x400,
        Region::CartRom => address % 0x200_0000,
        Region::CartSram => address % 0x1_0000,
        _ => address,
    }
}

/// Cycles that an access takes from request to completion.
pub open spec fn spec_access_cycles(timing: CartTiming, region: Region, width: AccessWidth, seq: bool) -> u64 {
    match region {
        Region::Ewram => if width == AccessWidth::Bit32 {
            6
        } else {
            3
        },
        Region::Palette | Region::Vram => if width == AccessWidth::Bit32 {
            2
        } else {
            1
        },
        Region::CartRom => {
            let first = if seq {
                timing.rom_next
            } else {
                timing.rom_first
            };
            if width == AccessWidth::Bit32 {
                (first + timing.rom_next) as u64
            } else {
                first
            }
        },
        Region::CartSram => timing.sram,
        _ => 1,
    }
}

pub fn access_cycles(timing: CartTiming, region: Region, width: AccessWidth, seq: bool) -> (r: u64)
    requires
        timing.wf(),
    ensures
        r == spec_access_cycles(timing, region, width, seq),
        1 <= r,
{
    let wide = match width {
        AccessWidth::Bit32 => true,
        _ => false,
    };
    match region {
        Region::Ewram => if wide {
            6
        } else {
            3
        },
        Region::Palette | Region::Vram => if wide {
            2
        } else {
            1
        },
        Region::CartRom => {
            let first: u64 = if seq {
                timing.rom_next
            } else {
                timing.rom_first
            };
            if wide {
                first + timing.rom_next
            } else {
                first
            }
        },
        Region::CartSram => timing.sram,
        _ => 1,
    }
}

/// The registers after a bus write to the register block. A word write is
/// a write to two neighbouring registers; a byte write is not carried out.
pub open spec fn mmio_write(lcd: LcdControllerRegs, address: u32, width: AccessWidth, data: u32) -> LcdControllerRegs {
    match width {
        AccessWidth::Bit8 => lcd,
        AccessWidth::Bit16 => lcd.spec_write(align_down(address, 2), spec_lane16(data, address) as u32),
        AccessWidth::Bit32 => lcd.spec_write(align_down(address, 4), data).spec_write(
            (align_down(address, 4) + 2) as u32,
            data >> 16,
        ),
    }
}

/// Address and data of the part of a bus write to the register block that
/// reaches no register, if there is one: a byte write, or a half-word of
/// the write that goes where no register is mapped.
pub open spec fn mmio_rejected(address: u32, width: AccessWidth, data: u32) -> Option<(u32, u32)> {
    match width {
        AccessWidth::Bit8 => Some((address, spec_lane8(data, address) as u32)),
        AccessWidth::Bit16 => if LcdControllerRegs::recognises(align_down(address, 2)) {
            None
        } else {
            Some((align_down(address, 2), spec_lane16(data, address) as u32))
        },
        AccessWidth::Bit32 => if !LcdControllerRegs::recognises(align_down(address, 4)) {
            Some((align_down(address, 4), data & 0xFFFF))
        } else if !LcdControllerRegs::recognises((align_down(address, 4) + 2) as u32) {
            Some(((align_down(address, 4) + 2) as u32, data >> 16))
        } else {
            None
        },
    }
}

/// All that the memory unit holds, as plain values.
pub struct MemoryModel {
    pub bios: Seq<u8>,
    pub bios_unlocked: bool,
    pub last_bios_read: u32,
    pub ewram: Seq<u8>,
    pub iwram: Seq<u8>,
    pub palettes: Seq<u8>,
    pub vram: Seq<u8>,
    pub oam: Seq<u8>,
    pub cart_rom: Seq<u8>,
    pub cart_sram: Seq<u8>,
    pub lcd: LcdControllerRegs,
    /// What the last write to the register block could not deliver.
    pub unrecognised: Option<(u32, u32)>,
    pub timing: CartTiming,
    pub state: MemoryState,
}

impl MemoryModel {
    /// Every buffer has the size of its region.
    pub open spec fn wf(self) -> bool {
        &&& self.bios.len() == BIOS_SIZE
        &&& self.ewram.len() == EWRAM_SIZE
        &&& self.iwram.len() == IWRAM_SIZE
        &&& self.palettes.len() == PALETTE_SIZE
        &&& self.vram.len() == VRAM_SIZE
        &&& self.oam.len() == OAM_SIZE
        &&& self.cart_rom.len() <= CART_ROM_LIMIT
        &&& self.cart_sram.len() <= CART_SRAM_LIMIT
        &&& self.lcd.wf()
        &&& self.timing.wf()
    }

    /// The unit after it has seen `request` arrive: an instruction fetch
    /// unlocks the BIOS if it comes from inside it and locks it otherwise.
    pub open spec fn observe(self, request: MemoryRequest) -> MemoryModel {
        if request.op == (OperationType::Read { is_instruction: true }) {
            MemoryModel { bios_unlocked: request.address < 0x4000, ..self }
        } else {
            self
        }
    }

    /// The unit and the bus data after `request` is carried out with `data`
    /// on the bus. Reads of the BIOS answer only while it is unlocked, and
    /// leave the word they read from behind for when it is not. Writes to
    /// the register block note what they could not deliver. The cartridge
    /// answers inside its image and its save memory only.
    pub open spec fn serve(self, request: MemoryRequest, data: u32) -> (MemoryModel, u32) {
        let region = spec_region_of(request.address);
        let offset = spec_region_offset(region, request.address);
        let op = request.op;
        let width = request.width;
        match region {
            Region::Bios => if op is Read {
                if self.bios_unlocked {
                    let word = le_u32_at(self.bios, align_down(offset, 4) as int);
                    (MemoryModel { last_bios_read: word, ..self }, read_word(self.bios, offset, width))
                } else {
                    (self, self.last_bios_read)
                }
            } else {
                (self, data)
            },
            Region::Ewram => {
                let (ewram, out) = ram_access(self.ewram, data, offset, op, width);
                (MemoryModel { ewram, ..self }, out)
            },
            Region::Iwram => {
                let (iwram, out) = ram_access(self.iwram, data, offset, op, width);
                (MemoryModel { iwram, ..self }, out)
            },
            Region::Mmio => if op is Write {
                (
                    MemoryModel {
                        lcd: mmio_write(self.lcd, request.address, width, data),
                        unrecognised: mmio_rejected(request.address, width, data),
                        ..self
                    },
                    data,
                )
            } else {
                (self, data)
            },
            Region::Palette => {
                let (palettes, out) = video_access(self.palettes, data, offset, op, width);
                (MemoryModel { palettes, ..self }, out)
            },
            Region::Vram => if op is Write && width == AccessWidth::Bit8 && offset >= VRAM_OBJ_START {
                (self, data)
            } else {
                let (vram, out) = video_access(self.vram, data, offset, op, width);
                (MemoryModel { vram, ..self }, out)
            },
            Region::Oam => if op is Write && width == AccessWidth::Bit8 {
                (self, data)
            } else {
                let (oam, out) = ram_access(self.oam, data, offset, op, width);
                (MemoryModel { oam, ..self }, out)
            },
            Region::CartRom => if op is Read && access_fits(self.cart_rom.len(), offset, width) {
                (self, read_word(self.cart_rom, offset, width))
            } else {
                (self, data)
            },
            Region::CartSram => if access_fits(self.cart_sram.len(), offset, width) {
                let (cart_sram, out) = ram_access(self.cart_sram, data, offset, op, width);
                (MemoryModel { cart_sram, ..self }, out)
            } else {
                (self, data)
            },
            Region::Unmapped => (self, data),
        }
    }

    /// One resumption of the memory task: the unit and the bus afterwards,
    /// and the cycles the task waits before it looks at the bus again.
    ///
    /// An idle unit takes the request off the bus, if there is one. An
    /// access of one cycle is carried out at once. For a longer one the unit
    /// raises `busy` and sleeps through all but the last of its cycles; on
    /// waking it carries the access out and drops `busy`.
    pub open spec fn step(self, bus: Bus) -> (MemoryModel, Bus, u64) {
        match self.state {
            MemoryState::Idle => match bus.request {
                None => (self, bus, 1),
                Some(request) => {
                    let seen = self.observe(request);
                    let region = spec_region_of(request.address);
                    let cycles = spec_access_cycles(self.timing, region, request.width, request.seq);
                    if cycles <= 1 {
                        let (served, data) = seen.serve(request, bus.data);
                        (served, Bus { request: None, data, ..bus }, 1)
                    } else {
                        (
                            MemoryModel { state: MemoryState::Busy { request }, ..seen },
                            Bus { request: None, busy: true, ..bus },
                            (cycles - 1) as u64,
                        )
                    }
                },
            },
            MemoryState::Busy { request } => {
                let (served, data) = self.serve(request, bus.data);
                (MemoryModel { state: MemoryState::Idle, ..served }, Bus { busy: false, data, ..bus }, 1)
            },
        }
    }
}

/// Memory and memory-mapped registers that no other unit holds.
pub struct Memory {
    bios: Vec<u8>,
    bios_unlocked: bool,
    last_bios_read: u32,
    ewram: Vec<u8>,
    iwram: Vec<u8>,
    palettes: Vec<u8>,
    vram: Vec<u8>,
    oam: Vec<u8>,
    cart_rom: Vec<u8>,
    cart_sram: Vec<u8>,
    lcd: LcdControllerRegs,
    unrecognised: Option<(u32, u32)>,
    timing: CartTiming,
    state: MemoryState,
}

impl View for Memory {
    type V = MemoryModel;

    closed spec fn view(&self) -> MemoryModel {
        MemoryModel {
            bios: self.bios@,
            bios_unlocked: self.bios_unlocked,
            last_bios_read: self.last_bios_read,
            ewram: self.ewram@,
            iwram: self.iwram@,
            palettes: self.palettes@,
            vram: self.vram@,
            oam: self.oam@,
            cart_rom: self.cart_rom@,
            cart_sram: self.cart_sram@,
            lcd: self.lcd,
            unrecognised: self.unrecognised,
            timing: self.timing,
            state: self.state,
        }
    }
}

impl Memory {
    /// Builds a memory unit around a BIOS image and a cartridge. All RAM
    /// starts out zeroed and the BIOS locked. Returns `None` if the BIOS
    /// image is not 16 KiB, if the cartridge is larger than the address map
    /// has room for, or if an access time is zero or so large that the
    /// cycles of a word access cannot be counted.
    pub fn new(bios: Vec<u8>, cart_rom: Vec<u8>, cart_sram: Vec<u8>, timing: CartTiming) -> (r: Option<Memory>)
        ensures
            r is Some <==> bios@.len() == BIOS_SIZE && cart_rom@.len() <= CART_ROM_LIMIT && cart_sram@.len()
                <= CART_SRAM_LIMIT && timing.wf(),
            r matches Some(m) ==> {
                &&& m@.wf()
                &&& m@.bios == bios@
                &&& m@.cart_rom == cart_rom@
                &&& m@.cart_sram == cart_sram@
                &&& m@.timing == timing
                &&& m@.state == MemoryState::Idle
                &&& !m@.bios_unlocked
                &&& m@.last_bios_read == 0
                &&& m@.ewram == Seq::new(EWRAM_SIZE as nat, |i: int| 0u8)
                &&& m@.iwram == Seq::new(IWRAM_SIZE as nat, |i: int| 0u8)
                &&& m@.palettes == Seq::new(PALETTE_SIZE as nat, |i: int| 0u8)
                &&& m@.vram == Seq::new(VRAM_SIZE as nat, |i: int| 0u8)
                &&& m@.oam == Seq::new(OAM_SIZE as nat, |i: int| 0u8)
                &&& m@.lcd == LcdControllerRegs::initial()
                &&& m@.unrecognised is None
            },
    {
        if bios.len() != BIOS_SIZE || cart_rom.len() > CART_ROM_LIMIT || cart_sram.len() > CART_SRAM_LIMIT {
            return None;
        }
        if timing.rom_first < 1 || timing.rom_next < 1 || timing.sram < 1 {
            return None;
        }
        if timing.rom_first > u64::MAX - timing.rom_next || timing.rom_next > u64::MAX - timing.rom_next {
            return None;
        }
        let m = Memory {
            bios,
            bios_unlocked: false,
            last_bios_read: 0,
            ewram: vec![0u8; EWRAM_SIZE],
            iwram: vec![0u8; IWRAM_SIZE],
            palettes: vec![0u8; PALETTE_SIZE],
            vram: vec![0u8; VRAM_SIZE],
            oam: vec![0u8; OAM_SIZE],
            cart_rom,
            cart_sram,
            lcd: LcdControllerRegs::new(),
            unrecognised: None,
            timing,
            state: MemoryState::Idle,
        };
        Some(m)
    }

    /// Video memory, for the renderer to read.
    pub fn vram(&self) -> (r: &[u8])
        ensures
            r@ == self@.vram,
    {
        self.vram.as_slice()
    }

    /// Palette memory as bytes, two per colour, low byte first.
    pub fn palettes(&self) -> (r: &[u8])
        ensures
            r@ == self@.palettes,
    {
        self.palettes.as_slice()
    }

    /// Address and data of what the last write to the register block could
    /// not deliver, if there was anything: a byte write, or a write to an
    /// address where no register is mapped.
    pub fn unrecognised_write(&self) -> (r: Option<(u32, u32)>)
        ensures
            r == self@.unrecognised,
    {
        self.unrecognised
    }

    /// The registers of the LCD controller.
    pub fn lcd(&self) -> (r: &LcdControllerRegs)
        ensures
            *r == self@.lcd,
    {
        &self.lcd
    }

    fn observe(&mut self, request: MemoryRequest)
        requires
            old(self)@.wf(),
        ensures
            final(self)@ == old(self)@.observe(request),
            final(self)@.wf(),
    {
        match request.op {
            OperationType::Read { is_instruction } => {
                if is_instruction {
                    self.bios_unlocked = request.address < 0x4000;
                }
            },
            OperationType::Write => {},
        }
    }

    fn serve(&mut self, request: MemoryRequest, data: &mut u32)
        requires
            old(self)@.wf(),
        ensures
            (final(self)@, *final(data)) == old(self)@.serve(request, *old(data)),
            final(self)@.wf(),
    {
        let region = region_of(request.address);
        let offset: u32 = region_offset(region, request.address);
        let op = request.op;
        let width = request.width;
        let is_write = match op {
            OperationType::Write => true,
            _ => false,
        };
        let is_byte = match width {
            AccessWidth::Bit8 => true,
            _ => false,
        };
        match region {
            Region::Bios => {
                if !is_write {
                    if self.bios_unlocked {
                        self.last_bios_read = read_u32_at(self.bios.as_slice(), (offset - offset % 4) as usize);
                        *data = read_rom(&self.bios, offset, width);
                    } else {
                        *data = self.last_bios_read;
                    }
                }
            },
            Region::Ewram => {
                do_ewram_rw(data, &mut self.ewram, offset, op, width);
            },
            Region::Iwram => {
                do_iwram_rw32(data, &mut self.iwram, offset, op, width);
            },
            Region::Mmio => {
                if is_write {
                    let address: u32 = request.address;
                    match width {
                        AccessWidth::Bit8 => {
                            self.unrecognised = Some((address, lane8(*data, address) as u32));
                        },
                        AccessWidth::Bit16 => {
                            let base: u32 = address - address % 2;
                            let half: u32 = lane16(*data, address) as u32;
                            let known = self.lcd.write(base, half);
                            self.unrecognised = if known {
                                None
                            } else {
                                Some((base, half))
                            };
                        },
                        AccessWidth::Bit32 => {
                            let base: u32 = address - address % 4;
                            let low_known = self.lcd.write(base, *data);
                            let high_known = self.lcd.write(base + 2, *data >> 16);
                            self.unrecognised = if !low_known {
                                Some((base, *data & 0xFFFF))
                            } else if !high_known {
                                Some((base + 2, *data >> 16))
                            } else {
                                None
                            };
                        },
                    }
                }
            },
            Region::Palette => {
                do_read_write16(data, &mut self.palettes, offset, op, width);
            },
            Region::Vram => {
                if !(is_write && is_byte && offset >= VRAM_OBJ_START) {
                    do_read_write16(data, &mut self.vram, offset, op, width);
                }
            },
            Region::Oam => {
                if !(is_write && is_byte) {
                    do_iwram_rw32(data, &mut self.oam, offset, op, width);
                }
            },
            Region::CartRom => {
                if !is_write {
                    let len = self.cart_rom.len();
                    let fits = match width {
                        AccessWidth::Bit8 => (offset as usize) < len,
                        AccessWidth::Bit16 => (offset - offset % 2) as usize + 2 <= len,
                        AccessWidth::Bit32 => (offset - offset % 4) as usize + 4 <= len,
                    };
                    if fits {
                        *data = read_rom(&self.cart_rom, offset, width);
                    }
                }
            },
            Region::CartSram => {
                let len = self.cart_sram.len();
                let fits = match width {
                    AccessWidth::Bit8 => (offset as usize) < len,
                    AccessWidth::Bit16 => (offset - offset % 2) as usize + 2 <= len,
                    AccessWidth::Bit32 => (offset - offset % 4) as usize + 4 <= len,
                };
                if fits {
                    do_iwram_rw32(data, &mut self.cart_sram, offset, op, width);
                }
            },
            Region::Unmapped => {},
        }
    }

    /// Runs the memory task up to its next suspension point and returns
    /// the wait it asks for.
    pub fn run_task(&mut self, bus: &mut Bus) -> (r: WaitCycles)
        requires
            old(self)@.wf(),
        ensures
            (final(self)@, *final(bus), r.cycles) == old(self)@.step(*old(bus)),
            final(self)@.wf(),
    {
        match self.state {
            MemoryState::Idle => {
                match bus.take_request() {
                    None => wait_cycles(1),
                    Some(request) => {
                        self.observe(request);
                        let region = region_of(request.address);
                        let cycles: u64 = access_cycles(self.timing, region, request.width, request.seq);
                        if cycles <= 1 {
                            self.serve(request, &mut bus.data);
                            wait_cycles(1)
                        } else {
                            bus.busy = true;
                            self.state = MemoryState::Busy { request };
                            wait_cycles(cycles - 1)
                        }
                    },
                }
            },
            MemoryState::Busy { request } => {
                self.serve(request, &mut bus.data);
                bus.busy = false;
                self.state = MemoryState::Idle;
                wait_cycles(1)
            },
        }
    }
}

/// Reads from a buffer that is never written.
fn read_rom(rom: &Vec<u8>, offset: u32, width: AccessWidth) -> (r: u32)
    requires
        access_fits(rom@.len(), offset, width),
    ensures
        r == read_word(rom@, offset, width),
{
    match width {
        AccessWidth::Bit8 => mirror_8to32(rom[offset as usize]),
        AccessWidth::Bit16 => mirror_16to32(read_u16_at(rom.as_slice(), (offset - offset % 2) as usize)),
        AccessWidth::Bit32 => read_u32_at(rom.as_slice(), (offset - offset % 4) as usize),
    }
}

/// The memory unit as a task of the scheduler, with the bus as context.
impl Task<Bus> for Memory {
    open spec fn resumable(&self) -> bool {
        self@.wf()
    }

    /// The memory task never completes: it always yields.
    fn step(&mut self, bus: &mut Bus) -> (r: GeneratorState<WaitCycles, ()>)
        ensures
            r matches GeneratorState::Yielded(wait) && (final(self)@, *final(bus), wait.cycles) == old(
                self,
            )@.step(*old(bus)),
    {
        GeneratorState::Yielded(self.run_task(bus))
    }
}

} // verus!
