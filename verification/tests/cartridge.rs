use nes_core::cartridge::{Cartridge, Header, LoadError, Mapper, MirrorMode};

fn header(mapper1: u8, mapper2: u8) -> Header {
    Header {
        prg_rom_chunks: 1,
        chr_rom_chunks: 1,
        mapper1,
        mapper2,
        prg_ram_size: 0x00,
        tv1: 0x00,
        tv2: 0x00,
    }
}

/// A ROM container: 16-byte header, optional trainer, then PRG and CHR data.
fn build_rom(
    prg_chunks: u8,
    chr_chunks: u8,
    flags1: u8,
    flags2: u8,
    prg_fill: u8,
    chr_fill: u8,
) -> Vec<u8> {
    let mut data = vec![0x4E, 0x45, 0x53, 0x1A];
    data.push(prg_chunks);
    data.push(chr_chunks);
    data.push(flags1);
    data.push(flags2);
    data.extend_from_slice(&[0x00; 8]);
    assert_eq!(data.len(), 16);
    if flags1 & 0x04 != 0 {
        data.extend(std::iter::repeat(0xAA).take(512));
    }
    data.extend(std::iter::repeat(prg_fill).take(prg_chunks as usize * 16384));
    data.extend(std::iter::repeat(chr_fill).take(chr_chunks as usize * 8192));
    data
}

#[test]
fn test_header_get_mapper_id() {
    let h = header(0x00, 0x00);
    assert_eq!(0, h.get_mapper_id());

    let h = header(0x10, 0x00);
    assert_eq!(1, h.get_mapper_id());

    let h = header(0xff, 0xff);
    assert_eq!(255, h.get_mapper_id());
}

#[test]
fn test_header_get_mirror_mode() {
    let h = header(0x00, 0x00);
    assert_eq!(h.get_mirror_mode(), MirrorMode::HORIZONTAL);
    let h = header(0x01, 0x00);
    assert_eq!(h.get_mirror_mode(), MirrorMode::VERTICAL);
}

#[test]
fn test_header_has_trainer() {
    let h = header(1 << 2, 0x00);
    assert!(h.has_trainer());

    let h = header(0x00, 0x00);
    assert!(!h.has_trainer());
}

#[test]
fn test_cartridge_new() {
    let data = build_rom(1, 1, 0x00, 0x00, 0x11, 0x22);
    Cartridge::from_bytes(&data).unwrap();
}

#[test]
fn test_load_selects_mapper_zero() {
    let data = build_rom(2, 1, 0x01, 0x00, 0x33, 0x44);
    let cart = Cartridge::from_bytes(&data).unwrap();
    assert!(matches!(cart.mapper, Mapper::Mapper0 { prg_banks: 2, chr_banks: 1 }));
    assert_eq!(cart.get_mirror_mode(), MirrorMode::VERTICAL);
    assert_eq!(cart.readb(0x8000), Some(0x33));
    assert_eq!(cart.readb_ppu(0x0000), Some(0x44));
}

#[test]
fn test_load_skips_trainer() {
    // With the trainer flag set, 512 filler bytes preceding the PRG data
    // are skipped and never show up in the ROM banks.
    let data = build_rom(1, 1, 0x04, 0x00, 0x55, 0x66);
    let cart = Cartridge::from_bytes(&data).unwrap();
    assert_eq!(cart.readb(0x8000), Some(0x55));
    assert_eq!(cart.readb_ppu(0x1FFF), Some(0x66));
}

#[test]
fn test_load_unsupported_mapper() {
    // Mapper id 1: low nibble of the id sits in the high nibble of flags 1.
    let data = build_rom(1, 1, 0x10, 0x00, 0x00, 0x00);
    assert_eq!(Cartridge::from_bytes(&data), Err(LoadError::UnsupportedMapper(1)));

    let data = build_rom(1, 1, 0xF0, 0xF0, 0x00, 0x00);
    assert_eq!(Cartridge::from_bytes(&data), Err(LoadError::UnsupportedMapper(255)));
}

#[test]
fn test_load_truncated() {
    // Shorter than the 16-byte header.
    assert_eq!(Cartridge::from_bytes(&[0x4E, 0x45, 0x53]), Err(LoadError::Truncated));

    // Header promises one PRG chunk but the data ends early.
    let mut data = build_rom(1, 1, 0x00, 0x00, 0x11, 0x22);
    data.truncate(16 + 1000);
    assert_eq!(Cartridge::from_bytes(&data), Err(LoadError::Truncated));

    // Truncation is detected before the unsupported mapper id.
    let mut data = build_rom(1, 1, 0x10, 0x00, 0x11, 0x22);
    data.truncate(20);
    assert_eq!(Cartridge::from_bytes(&data), Err(LoadError::Truncated));
}

#[test]
fn test_dummy_cartridge() {
    let cart = Cartridge::dummy(MirrorMode::HORIZONTAL);
    assert_eq!(cart.get_mirror_mode(), MirrorMode::HORIZONTAL);
    assert!(matches!(cart.mapper, Mapper::Mapper0 { prg_banks: 1, chr_banks: 1 }));
    assert_eq!(cart.readb(0x8000), Some(0x00));
}

#[test]
fn test_prg_single_bank_mirrored() {
    // One 16 KiB bank is mirrored across the 32 KiB window.
    let mut cart = Cartridge::dummy(MirrorMode::HORIZONTAL);
    assert!(cart.writeb(0x8123, 0x77));
    assert_eq!(cart.readb(0x8123), Some(0x77));
    assert_eq!(cart.readb(0xC123), Some(0x77));
    // Below the window the strategy reports no mapping.
    assert_eq!(cart.readb(0x4020), None);
    assert!(!cart.writeb(0x7FFF, 0x01));
}

#[test]
fn test_prg_two_banks_not_mirrored() {
    let data = build_rom(2, 1, 0x00, 0x00, 0x00, 0x00);
    let mut cart = Cartridge::from_bytes(&data).unwrap();
    assert!(cart.writeb(0x8000, 0x42));
    assert_eq!(cart.readb(0x8000), Some(0x42));
    assert_eq!(cart.readb(0xC000), Some(0x00));
}

#[test]
fn test_chr_rom_not_writable() {
    // CHR supplied as ROM (nonzero chunk count) rejects PPU-side writes.
    let mut cart = Cartridge::dummy(MirrorMode::HORIZONTAL);
    assert!(!cart.writeb_ppu(0x0000, 0x99));
    assert_eq!(cart.readb_ppu(0x0000), Some(0x00));
    // Above the pattern space the strategy reports no mapping.
    assert_eq!(cart.readb_ppu(0x2000), None);
}
