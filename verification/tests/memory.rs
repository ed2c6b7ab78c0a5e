use advance::endian::{convert_to_u16_vec, read_u16_at, read_u32_at, write_u16_at, write_u32_at};
use advance::memory::{
    access_cycles, concat16, do_ewram_rw, do_ewram_rw16, do_iwram_rw32, do_read_write16, do_write16,
    lane16, lane8, mirror_16to32, mirror_8to16, mirror_8to32, region_of, region_offset, CartTiming,
    Memory, Region,
};
use advance::system::{AccessWidth, Bus, MemoryRequest, OperationType};

const READ: OperationType = OperationType::Read { is_instruction: false };
const FETCH: OperationType = OperationType::Read { is_instruction: true };
const WRITE: OperationType = OperationType::Write;

fn timing() -> CartTiming {
    CartTiming { rom_first: 5, rom_next: 3, sram: 9 }
}

fn bios_image() -> Vec<u8> {
    (0..0x4000u32).map(|i| (i * 7 + 1) as u8).collect()
}

fn rom_image() -> Vec<u8> {
    (0..0x102u32).map(|i| (i ^ 0x5A) as u8).collect()
}

fn memory() -> Memory {
    Memory::new(bios_image(), rom_image(), vec![0; 0x8000], timing()).unwrap()
}

/// Puts a request on the bus and resumes the memory task at the cycles it
/// asks for until the access is done. Returns how many cycles it took.
fn access(memory: &mut Memory, bus: &mut Bus, address: u32, width: AccessWidth, op: OperationType) -> u64 {
    bus.make_request(MemoryRequest { address, width, op, seq: false });
    let mut cycles = 0;
    loop {
        let wait = memory.run_task(bus).cycles;
        if !bus.busy {
            assert_eq!(wait, 1);
            return cycles + 1;
        }
        assert_eq!(bus.take_request(), None);
        cycles += wait;
    }
}

fn write(memory: &mut Memory, bus: &mut Bus, address: u32, width: AccessWidth, data: u32) -> u64 {
    bus.data = data;
    let cycles = access(memory, bus, address, width, WRITE);
    assert_eq!(bus.data, data);
    cycles
}

fn read(memory: &mut Memory, bus: &mut Bus, address: u32, width: AccessWidth) -> u32 {
    access(memory, bus, address, width, READ);
    bus.data
}

#[test]
fn mirror_and_concat_exact_values() {
    assert_eq!(concat16(0x1234, 0xABCD), 0x1234_ABCD);
    assert_eq!(mirror_16to32(0xBEEF), 0xBEEF_BEEF);
    assert_eq!(mirror_8to32(0xA5), 0xA5A5_A5A5);
    assert_eq!(mirror_8to16(0xA5), 0xA5A5);
    assert_eq!(mirror_8to32(0), 0);
}

#[test]
fn lanes_follow_the_low_address_bits() {
    let word = 0x4433_2211;
    assert_eq!([0u32, 1, 2, 3, 4, 7].map(|o| lane8(word, o)), [0x11, 0x22, 0x33, 0x44, 0x11, 0x44]);
    assert_eq!([0u32, 1, 2, 3, 6].map(|o| lane16(word, o)), [0x2211, 0x2211, 0x4433, 0x4433, 0x4433]);
}

#[test]
fn little_endian_reads_and_writes() {
    let mut bytes = vec![0x11u8, 0x22, 0x33, 0x44, 0x55, 0x66];
    assert_eq!(read_u16_at(&bytes, 0), 0x2211);
    assert_eq!(read_u16_at(&bytes, 3), 0x5544);
    assert_eq!(read_u32_at(&bytes, 0), 0x4433_2211);
    assert_eq!(read_u32_at(&bytes, 2), 0x6655_4433);
    write_u16_at(&mut bytes, 1, 0xABCD);
    assert_eq!(bytes, vec![0x11, 0xCD, 0xAB, 0x44, 0x55, 0x66]);
    write_u32_at(&mut bytes, 2, 0x0102_0304);
    assert_eq!(bytes, vec![0x11, 0xCD, 0x04, 0x03, 0x02, 0x01]);
}

#[test]
fn palette_dump_is_decoded_little_endian() {
    assert_eq!(convert_to_u16_vec(&[0x34, 0x12, 0xFF, 0x7F, 0x00, 0x80]), vec![0x1234, 0x7FFF, 0x8000]);
    assert_eq!(convert_to_u16_vec(&[]), Vec::<u16>::new());
    let dump: Vec<u8> = (0..1024u32).map(|i| i as u8).collect();
    let pals = convert_to_u16_vec(&dump);
    assert_eq!(pals.len(), 512);
    assert_eq!(pals[0], 0x0100);
    assert_eq!(pals[511], 0xFFFE);
}

#[test]
fn word_write_then_narrow_reads() {
    let mut ram = vec![0u8; 16];
    let mut data = 0xDDCC_BBAA;
    do_iwram_rw32(&mut data, &mut ram, 5, WRITE, AccessWidth::Bit32);
    assert_eq!(data, 0xDDCC_BBAA);
    assert_eq!(&ram[4..8], &[0xAA, 0xBB, 0xCC, 0xDD]);
    assert_eq!(&ram[0..4], &[0, 0, 0, 0]);
    assert_eq!(&ram[8..16], &[0; 8]);
    let expected_bytes = [0xAAAA_AAAAu32, 0xBBBB_BBBB, 0xCCCC_CCCC, 0xDDDD_DDDD];
    let expected_halves = [0xBBAA_BBAAu32, 0xBBAA_BBAA, 0xDDCC_DDCC, 0xDDCC_DDCC];
    for lane in 0..4u32 {
        let mut out = 0;
        do_iwram_rw32(&mut out, &mut ram, 4 + lane, READ, AccessWidth::Bit8);
        assert_eq!(out, expected_bytes[lane as usize]);
        do_iwram_rw32(&mut out, &mut ram, 4 + lane, READ, AccessWidth::Bit16);
        assert_eq!(out, expected_halves[lane as usize]);
        do_iwram_rw32(&mut out, &mut ram, 4 + lane, READ, AccessWidth::Bit32);
        assert_eq!(out, 0xDDCC_BBAA);
        // The 16-bit bus gives the same answers.
        do_ewram_rw(&mut out, &mut ram, 4 + lane, READ, AccessWidth::Bit8);
        assert_eq!(out, expected_bytes[lane as usize]);
        do_ewram_rw(&mut out, &mut ram, 4 + lane, READ, AccessWidth::Bit16);
        assert_eq!(out, expected_halves[lane as usize]);
        do_ewram_rw(&mut out, &mut ram, 4 + lane, READ, AccessWidth::Bit32);
        assert_eq!(out, 0xDDCC_BBAA);
    }
}

#[test]
fn narrow_writes_take_the_addressed_lane() {
    for wide_bus in [true, false] {
        let rw = if wide_bus { do_iwram_rw32 } else { do_ewram_rw };
        let mut ram = vec![0u8; 8];
        let mut data = 0x4433_2211;
        rw(&mut data, &mut ram, 2, WRITE, AccessWidth::Bit8);
        assert_eq!(ram, vec![0, 0, 0x33, 0, 0, 0, 0, 0]);
        rw(&mut data, &mut ram, 5, WRITE, AccessWidth::Bit8);
        assert_eq!(ram, vec![0, 0, 0x33, 0, 0, 0x22, 0, 0]);
        rw(&mut data, &mut ram, 7, WRITE, AccessWidth::Bit16);
        assert_eq!(ram, vec![0, 0, 0x33, 0, 0, 0x22, 0x33, 0x44]);
        rw(&mut data, &mut ram, 0, WRITE, AccessWidth::Bit16);
        assert_eq!(ram, vec![0x11, 0x22, 0x33, 0, 0, 0x22, 0x33, 0x44]);
        assert_eq!(data, 0x4433_2211);
    }
}

#[test]
fn half_word_latch_access() {
    let mut ram = vec![0x11u8, 0x22, 0x33, 0x44];
    let mut latch = 0u16;
    do_ewram_rw16(&mut latch, &mut ram, 3, READ, AccessWidth::Bit8);
    assert_eq!(latch, 0x4433);
    do_ewram_rw16(&mut latch, &mut ram, 0, READ, AccessWidth::Bit16);
    assert_eq!(latch, 0x2211);
    latch = 0xABCD;
    do_ewram_rw16(&mut latch, &mut ram, 1, WRITE, AccessWidth::Bit8);
    assert_eq!(ram, vec![0x11, 0xCD, 0x33, 0x44]);
    do_ewram_rw16(&mut latch, &mut ram, 3, WRITE, AccessWidth::Bit16);
    assert_eq!(ram, vec![0x11, 0xCD, 0xCD, 0xAB]);
    assert_eq!(latch, 0xABCD);
    do_write16(&mut ram, 1, 0x0102, AccessWidth::Bit32);
    assert_eq!(ram, vec![0x02, 0x01, 0xCD, 0xAB]);
    do_write16(&mut ram, 2, 0x0304, AccessWidth::Bit8);
    assert_eq!(ram, vec![0x02, 0x01, 0x04, 0xAB]);
}

#[test]
fn video_memory_fills_the_half_word_on_a_byte_write() {
    let mut ram = vec![0u8; 8];
    let mut data = 0x4433_2211;
    do_read_write16(&mut data, &mut ram, 3, WRITE, AccessWidth::Bit8);
    assert_eq!(ram, vec![0, 0, 0x44, 0x44, 0, 0, 0, 0]);
    do_read_write16(&mut data, &mut ram, 4, WRITE, AccessWidth::Bit16);
    assert_eq!(ram, vec![0, 0, 0x44, 0x44, 0x11, 0x22, 0, 0]);
    do_read_write16(&mut data, &mut ram, 0, WRITE, AccessWidth::Bit32);
    assert_eq!(ram, vec![0x11, 0x22, 0x33, 0x44, 0x11, 0x22, 0, 0]);
    let mut out = 0;
    do_read_write16(&mut out, &mut ram, 1, READ, AccessWidth::Bit8);
    assert_eq!(out, 0x2222_2222);
    do_read_write16(&mut out, &mut ram, 2, READ, AccessWidth::Bit16);
    assert_eq!(out, 0x4433_4433);
    do_read_write16(&mut out, &mut ram, 2, READ, AccessWidth::Bit32);
    assert_eq!(out, 0x4433_2211);
}

#[test]
fn regions_by_top_byte() {
    let expected = [
        (0x00u32, Region::Bios),
        (0x01, Region::Unmapped),
        (0x02, Region::Ewram),
        (0x03, Region::Iwram),
        (0x04, Region::Mmio),
        (0x05, Region::Palette),
        (0x06, Region::Vram),
        (0x07, Region::Oam),
        (0x08, Region::CartRom),
        (0x0A, Region::CartRom),
        (0x0D, Region::CartRom),
        (0x0E, Region::CartSram),
        (0x0F, Region::Unmapped),
        (0x10, Region::Unmapped),
        (0xFF, Region::Unmapped),
    ];
    for (top, region) in expected {
        assert_eq!(region_of(top << 24), region);
        assert_eq!(region_of(top << 24 | 0x00FF_FFFF), region);
    }
}

#[test]
fn offsets_wrap_inside_each_region() {
    assert_eq!(region_offset(Region::Bios, 0x0000_4004), 4);
    assert_eq!(region_offset(Region::Ewram, 0x0204_0010), 0x10);
    assert_eq!(region_offset(Region::Ewram, 0x0203_FFFF), 0x3_FFFF);
    assert_eq!(region_offset(Region::Iwram, 0x0300_8001), 1);
    assert_eq!(region_offset(Region::Palette, 0x0500_0402), 2);
    assert_eq!(region_offset(Region::Vram, 0x0601_7FFF), 0x1_7FFF);
    assert_eq!(region_offset(Region::Vram, 0x0601_8000), 0x1_0000);
    assert_eq!(region_offset(Region::Vram, 0x0601_FFFF), 0x1_7FFF);
    assert_eq!(region_offset(Region::Vram, 0x0602_0000), 0);
    assert_eq!(region_offset(Region::Oam, 0x0700_0400), 0);
    assert_eq!(region_offset(Region::CartRom, 0x0A00_0100), 0x100);
    assert_eq!(region_offset(Region::CartRom, 0x0900_0100), 0x100_0100);
    assert_eq!(region_offset(Region::CartSram, 0x0E01_0003), 3);
}

#[test]
fn cycles_per_region() {
    let t = timing();
    for seq in [false, true] {
        for region in [Region::Bios, Region::Iwram, Region::Mmio, Region::Oam, Region::Unmapped] {
            for width in [AccessWidth::Bit8, AccessWidth::Bit16, AccessWidth::Bit32] {
                assert_eq!(access_cycles(t, region, width, seq), 1);
            }
        }
        assert_eq!(access_cycles(t, Region::Ewram, AccessWidth::Bit8, seq), 3);
        assert_eq!(access_cycles(t, Region::Ewram, AccessWidth::Bit16, seq), 3);
        assert_eq!(access_cycles(t, Region::Ewram, AccessWidth::Bit32, seq), 6);
        for region in [Region::Palette, Region::Vram] {
            assert_eq!(access_cycles(t, region, AccessWidth::Bit8, seq), 1);
            assert_eq!(access_cycles(t, region, AccessWidth::Bit16, seq), 1);
            assert_eq!(access_cycles(t, region, AccessWidth::Bit32, seq), 2);
        }
        assert_eq!(access_cycles(t, Region::CartSram, AccessWidth::Bit8, seq), 9);
    }
    assert_eq!(access_cycles(t, Region::CartRom, AccessWidth::Bit16, false), 5);
    assert_eq!(access_cycles(t, Region::CartRom, AccessWidth::Bit16, true), 3);
    assert_eq!(access_cycles(t, Region::CartRom, AccessWidth::Bit32, false), 8);
    assert_eq!(access_cycles(t, Region::CartRom, AccessWidth::Bit32, true), 6);
}

#[test]
fn new_checks_sizes_and_timing() {
    assert!(Memory::new(bios_image(), rom_image(), vec![], timing()).is_some());
    assert!(Memory::new(vec![0; 0x3FFF], rom_image(), vec![], timing()).is_none());
    assert!(Memory::new(vec![0; 0x4001], rom_image(), vec![], timing()).is_none());
    assert!(Memory::new(bios_image(), vec![0; 0x200_0001], vec![], timing()).is_none());
    assert!(Memory::new(bios_image(), vec![0; 0x200_0000], vec![0; 0x1_0000], timing()).is_some());
    assert!(Memory::new(bios_image(), rom_image(), vec![0; 0x1_0001], timing()).is_none());
    for bad in [
        CartTiming { rom_first: 0, ..timing() },
        CartTiming { rom_next: 0, ..timing() },
        CartTiming { sram: 0, ..timing() },
        CartTiming { rom_first: u64::MAX, ..timing() },
        CartTiming { rom_next: u64::MAX / 2 + 1, ..timing() },
        CartTiming { rom_first: u64::MAX - 2, rom_next: 3, sram: 1 },
    ] {
        assert!(Memory::new(bios_image(), rom_image(), vec![], bad).is_none());
    }
    for good in [
        CartTiming { rom_first: 1, rom_next: 1, sram: 1 },
        CartTiming { rom_first: 0x1_0000, rom_next: 0x1_0000, sram: u64::MAX },
        CartTiming { rom_first: u64::MAX - 3, rom_next: 3, sram: 1 },
        CartTiming { rom_first: 1, rom_next: u64::MAX / 2, sram: 1 },
    ] {
        assert!(Memory::new(bios_image(), rom_image(), vec![], good).is_some());
    }
}

#[test]
fn idle_memory_yields_one_cycle() {
    let mut memory = memory();
    let mut bus = Bus::default();
    assert_eq!(memory.run_task(&mut bus).cycles, 1);
    assert!(!bus.busy);
    assert_eq!(bus.data, 0xFFFF_FFFF);
}

#[test]
fn iwram_answers_in_the_same_cycle() {
    let mut memory = memory();
    let mut bus = Bus::default();
    assert_eq!(write(&mut memory, &mut bus, 0x0300_0010, AccessWidth::Bit32, 0x1234_5678), 1);
    assert_eq!(bus.request, None);
    bus.data = 0;
    assert_eq!(access(&mut memory, &mut bus, 0x0300_0012, AccessWidth::Bit16, READ), 1);
    assert_eq!(bus.data, 0x1234_1234);
    assert_eq!(read(&mut memory, &mut bus, 0x0300_8011, AccessWidth::Bit8), 0x5656_5656);
}

#[test]
fn ewram_holds_the_bus_busy() {
    let mut memory = memory();
    let mut bus = Bus::default();
    bus.data = 0xAABB_CCDD;
    bus.make_request(MemoryRequest {
        address: 0x0200_0100,
        width: AccessWidth::Bit32,
        op: WRITE,
        seq: false,
    });
    // The request is taken at once, the access made five cycles later.
    assert_eq!(memory.run_task(&mut bus).cycles, 5);
    assert!(bus.busy);
    assert!(bus.should_cpu_wait());
    assert_eq!(bus.request, None);
    assert_eq!(memory.run_task(&mut bus).cycles, 1);
    assert!(!bus.busy);
    assert_eq!(access(&mut memory, &mut bus, 0x0200_0100, AccessWidth::Bit16, READ), 3);
    assert_eq!(bus.data, 0xCCDD_CCDD);
    assert_eq!(access(&mut memory, &mut bus, 0x0200_0103, AccessWidth::Bit8, READ), 3);
    assert_eq!(bus.data, 0xAAAA_AAAA);
    assert_eq!(access(&mut memory, &mut bus, 0x0204_0100, AccessWidth::Bit32, READ), 6);
    assert_eq!(bus.data, 0xAABB_CCDD);
}

#[test]
fn bios_is_locked_until_fetched_from() {
    let mut memory = memory();
    let mut bus = Bus::default();
    let bios = bios_image();
    let word_at = |o: usize| u32::from_le_bytes([bios[o], bios[o + 1], bios[o + 2], bios[o + 3]]);
    // Locked: a data read returns the last word read while unlocked, which is 0 at first.
    assert_eq!(read(&mut memory, &mut bus, 0x0000_0010, AccessWidth::Bit32), 0);
    // A fetch from inside the BIOS unlocks it.
    access(&mut memory, &mut bus, 0x0000_0020, AccessWidth::Bit32, FETCH);
    assert_eq!(bus.data, word_at(0x20));
    assert_eq!(read(&mut memory, &mut bus, 0x0000_0133, AccessWidth::Bit32), word_at(0x130));
    // Narrow reads return the addressed byte or half-word, mirrored.
    assert_eq!(read(&mut memory, &mut bus, 0x0000_0001, AccessWidth::Bit8), bios[1] as u32 * 0x0101_0101);
    assert_eq!(
        read(&mut memory, &mut bus, 0x0000_0133, AccessWidth::Bit16),
        u16::from_le_bytes([bios[0x132], bios[0x133]]) as u32 * 0x1_0001
    );
    assert_eq!(read(&mut memory, &mut bus, 0x0000_3FFC, AccessWidth::Bit32), word_at(0x3FFC));
    // A fetch from anywhere else locks it again.
    access(&mut memory, &mut bus, 0x0300_0000, AccessWidth::Bit32, FETCH);
    assert_eq!(read(&mut memory, &mut bus, 0x0000_0010, AccessWidth::Bit32), word_at(0x3FFC));
    // A fetch from 0x4000 is in the region but not below the limit.
    access(&mut memory, &mut bus, 0x0000_3FF0, AccessWidth::Bit32, FETCH);
    assert_eq!(bus.data, word_at(0x3FF0));
    access(&mut memory, &mut bus, 0x0000_4000, AccessWidth::Bit32, FETCH);
    assert_eq!(bus.data, word_at(0x3FF0));
    // Writes do nothing.
    access(&mut memory, &mut bus, 0x0000_0020, AccessWidth::Bit32, FETCH);
    write(&mut memory, &mut bus, 0x0000_0020, AccessWidth::Bit32, 0x5555_5555);
    assert_eq!(read(&mut memory, &mut bus, 0x0000_0020, AccessWidth::Bit32), word_at(0x20));
}

#[test]
fn palette_and_vram_byte_writes() {
    let mut memory = memory();
    let mut bus = Bus::default();
    assert_eq!(write(&mut memory, &mut bus, 0x0500_0003, AccessWidth::Bit8, 0x7F7F_7F7F), 1);
    assert_eq!(&memory.palettes()[0..4], &[0, 0, 0x7F, 0x7F]);
    assert_eq!(write(&mut memory, &mut bus, 0x0500_0010, AccessWidth::Bit32, 0x1122_3344), 2);
    assert_eq!(&memory.palettes()[0x10..0x14], &[0x44, 0x33, 0x22, 0x11]);
    // Background tiles take byte writes as half-words.
    write(&mut memory, &mut bus, 0x0600_0100, AccessWidth::Bit8, 0xABAB_ABAB);
    assert_eq!(&memory.vram()[0x100..0x102], &[0xAB, 0xAB]);
    write(&mut memory, &mut bus, 0x0600_FFFF, AccessWidth::Bit8, 0xCDCD_CDCD);
    assert_eq!(&memory.vram()[0xFFFE..0x10000], &[0xCD, 0xCD]);
    // Object tiles ignore them.
    write(&mut memory, &mut bus, 0x0601_0000, AccessWidth::Bit8, 0xEEEE_EEEE);
    write(&mut memory, &mut bus, 0x0601_7FFF, AccessWidth::Bit8, 0xEEEE_EEEE);
    assert_eq!(&memory.vram()[0x1_0000..0x1_0002], &[0, 0]);
    assert_eq!(&memory.vram()[0x1_7FFE..0x1_8000], &[0, 0]);
    // But not half-word writes, and the last 32 KiB show up twice.
    write(&mut memory, &mut bus, 0x0601_8000, AccessWidth::Bit16, 0x1234_1234);
    assert_eq!(&memory.vram()[0x1_0000..0x1_0002], &[0x34, 0x12]);
    assert_eq!(read(&mut memory, &mut bus, 0x0601_0000, AccessWidth::Bit16), 0x1234_1234);
    assert_eq!(memory.vram().len(), 0x1_8000);
    assert_eq!(memory.palettes().len(), 0x400);
}

#[test]
fn oam_ignores_byte_writes() {
    let mut memory = memory();
    let mut bus = Bus::default();
    write(&mut memory, &mut bus, 0x0700_0004, AccessWidth::Bit32, 0x0102_0304);
    write(&mut memory, &mut bus, 0x0700_0005, AccessWidth::Bit8, 0xFFFF_FFFF);
    assert_eq!(read(&mut memory, &mut bus, 0x0700_0004, AccessWidth::Bit32), 0x0102_0304);
    write(&mut memory, &mut bus, 0x0700_0006, AccessWidth::Bit16, 0xAAAA_BBBB);
    assert_eq!(read(&mut memory, &mut bus, 0x0700_0404, AccessWidth::Bit32), 0xAAAA_0304);
}

#[test]
fn cartridge_rom_is_read_only_and_ends() {
    let mut memory = memory();
    let mut bus = Bus::default();
    let rom = rom_image();
    assert_eq!(access(&mut memory, &mut bus, 0x0800_0004, AccessWidth::Bit32, READ), 8);
    assert_eq!(bus.data, u32::from_le_bytes([rom[4], rom[5], rom[6], rom[7]]));
    assert_eq!(access(&mut memory, &mut bus, 0x0800_0004, AccessWidth::Bit16, READ), 5);
    // Mirrors of the cartridge read the same image.
    assert_eq!(read(&mut memory, &mut bus, 0x0C00_0101, AccessWidth::Bit8), (rom[0x101] as u32) * 0x0101_0101);
    assert_eq!(read(&mut memory, &mut bus, 0x0A00_0100, AccessWidth::Bit16), u16::from_le_bytes([rom[0x100], rom[0x101]]) as u32 * 0x1_0001);
    // Past the end of the image the bus keeps what it had.
    bus.data = 0x1357_9BDF;
    assert_eq!(read(&mut memory, &mut bus, 0x0800_0100, AccessWidth::Bit32), 0x1357_9BDF);
    assert_eq!(read(&mut memory, &mut bus, 0x0800_0102, AccessWidth::Bit8), 0x1357_9BDF);
    assert_eq!(read(&mut memory, &mut bus, 0x0900_0000, AccessWidth::Bit8), 0x1357_9BDF);
    // Writes change nothing.
    write(&mut memory, &mut bus, 0x0800_0004, AccessWidth::Bit32, 0);
    assert_eq!(read(&mut memory, &mut bus, 0x0800_0004, AccessWidth::Bit32), u32::from_le_bytes([rom[4], rom[5], rom[6], rom[7]]));
}

#[test]
fn save_memory_keeps_every_lane_of_a_word() {
    let mut memory = memory();
    let mut bus = Bus::default();
    assert_eq!(write(&mut memory, &mut bus, 0x0E00_0004, AccessWidth::Bit32, 0x4433_2211), 9);
    let bytes = [0x1111_1111u32, 0x2222_2222, 0x3333_3333, 0x4444_4444];
    for lane in 0..4u32 {
        assert_eq!(read(&mut memory, &mut bus, 0x0E00_0004 + lane, AccessWidth::Bit8), bytes[lane as usize]);
        assert_eq!(read(&mut memory, &mut bus, 0x0E00_0004 + lane, AccessWidth::Bit32), 0x4433_2211);
    }
    assert_eq!(read(&mut memory, &mut bus, 0x0E00_0004, AccessWidth::Bit16), 0x2211_2211);
    assert_eq!(read(&mut memory, &mut bus, 0x0E00_0006, AccessWidth::Bit16), 0x4433_4433);
    // Narrow writes take the addressed lane; the region repeats every 64 KiB.
    write(&mut memory, &mut bus, 0x0E01_0005, AccessWidth::Bit8, 0xDDCC_BBAA);
    assert_eq!(read(&mut memory, &mut bus, 0x0E00_0004, AccessWidth::Bit32), 0x4433_BB11);
    write(&mut memory, &mut bus, 0x0E00_0006, AccessWidth::Bit16, 0xDDCC_BBAA);
    assert_eq!(read(&mut memory, &mut bus, 0x0E00_0004, AccessWidth::Bit32), 0xDDCC_BB11);
    assert_eq!(read(&mut memory, &mut bus, 0x0E00_0000, AccessWidth::Bit32), 0);
    // Past the end of the chip nothing answers and nothing is stored.
    bus.data = 0x0BAD_F00D;
    assert_eq!(read(&mut memory, &mut bus, 0x0E00_8000, AccessWidth::Bit8), 0x0BAD_F00D);
    assert_eq!(read(&mut memory, &mut bus, 0x0E00_7FFE, AccessWidth::Bit16), 0);
    bus.data = 0x0BAD_F00D;
    assert_eq!(read(&mut memory, &mut bus, 0x0E00_8000, AccessWidth::Bit32), 0x0BAD_F00D);
}

#[test]
fn unmapped_addresses_leave_the_bus_alone() {
    let mut memory = memory();
    let mut bus = Bus::default();
    bus.data = 0x600D_CAFE;
    assert_eq!(read(&mut memory, &mut bus, 0x0100_0000, AccessWidth::Bit32), 0x600D_CAFE);
    assert_eq!(read(&mut memory, &mut bus, 0xF000_0000, AccessWidth::Bit32), 0x600D_CAFE);
    assert_eq!(read(&mut memory, &mut bus, 0x0400_0000, AccessWidth::Bit16), 0x600D_CAFE);
}

#[test]
fn register_writes_reach_the_lcd_controller() {
    let mut memory = memory();
    let mut bus = Bus::default();
    assert_eq!(memory.lcd().video_mode, 0);
    write(&mut memory, &mut bus, 0x0400_0000, AccessWidth::Bit16, 0x0403_0403);
    assert_eq!(memory.lcd().video_mode, 3);
    assert_eq!(memory.lcd().bg_layer_enabled, [false, false, true, false]);
    // A word write reaches two registers.
    write(&mut memory, &mut bus, 0x0400_0008, AccessWidth::Bit32, 0x0002_0001);
    assert_eq!(memory.lcd().bg_attributes[0].priority, 1);
    assert_eq!(memory.lcd().bg_attributes[1].priority, 2);
    write(&mut memory, &mut bus, 0x0400_0012, AccessWidth::Bit16, 0x0040_0000);
    assert_eq!(memory.lcd().bg_attributes[0].y_scroll, 0x40);
    assert_eq!(memory.lcd().bg_attributes[0].x_scroll, 0);
    assert_eq!(memory.unrecognised_write(), None);
    // A byte write does not.
    write(&mut memory, &mut bus, 0x0400_0000, AccessWidth::Bit8, 0x0505_0505);
    assert_eq!(memory.lcd().video_mode, 3);
    assert_eq!(memory.unrecognised_write(), Some((0x0400_0000, 0x05)));
}

#[test]
fn undelivered_register_writes_are_handed_out() {
    let mut memory = memory();
    let mut bus = Bus::default();
    assert_eq!(memory.unrecognised_write(), None);
    write(&mut memory, &mut bus, 0x0400_0004, AccessWidth::Bit16, 0x1234_1234);
    assert_eq!(memory.unrecognised_write(), Some((0x0400_0004, 0x1234)));
    // A write that reaches its register clears the note.
    write(&mut memory, &mut bus, 0x0400_0008, AccessWidth::Bit16, 0x0001_0001);
    assert_eq!(memory.unrecognised_write(), None);
    // Of a word write the half that goes nowhere is noted; the other half is carried out.
    write(&mut memory, &mut bus, 0x0400_0000, AccessWidth::Bit32, 0xBEEF_0004);
    assert_eq!(memory.lcd().video_mode, 4);
    assert_eq!(memory.unrecognised_write(), Some((0x0400_0002, 0xBEEF)));
    // With both halves going nowhere the lower one is noted.
    write(&mut memory, &mut bus, 0x0400_0006, AccessWidth::Bit32, 0x0003_CAFE);
    assert_eq!(memory.lcd().bg_attributes[0].priority, 1);
    assert_eq!(memory.unrecognised_write(), Some((0x0400_0004, 0xCAFE)));
    write(&mut memory, &mut bus, 0x0400_0022, AccessWidth::Bit32, 0x0003_CAFE);
    assert_eq!(memory.unrecognised_write(), Some((0x0400_0020, 0xCAFE)));
    // Reads and accesses elsewhere leave the note alone.
    read(&mut memory, &mut bus, 0x0400_0000, AccessWidth::Bit16);
    write(&mut memory, &mut bus, 0x0300_0000, AccessWidth::Bit32, 0);
    assert_eq!(memory.unrecognised_write(), Some((0x0400_0020, 0xCAFE)));
}
