use nes_core::memory::{PPUBus, PPUMemory};
use nes_core::palette::palette_color;
use nes_core::ppu::{Control, Status, PPU};
use nes_core::sprite::sprite_pixel;

#[test]
fn test_set_flags() {
    let mut ppu = PPU::new();

    // set unset flag
    assert_eq!(ppu.regs.status, 0b00000000);
    ppu.set_status(Status::VerticalBlank, true);
    assert_eq!(
        ppu.regs.status, 0b10000000,
        "register={:#010b}; should be 0b10000000",
        ppu.regs.status
    );
    ppu.set_status(Status::VerticalBlank, false);
    assert_eq!(
        ppu.regs.status, 0b00000000,
        "register={:#010b}; should be 0b00000000",
        ppu.regs.status
    );

    // set same flag twice
    ppu.set_status(Status::VerticalBlank, true);
    assert_eq!(
        ppu.regs.status, 0b10000000,
        "register={:#010b}; should be 0b10000000",
        ppu.regs.status
    );
    ppu.set_status(Status::VerticalBlank, true);
    assert_eq!(
        ppu.regs.status, 0b10000000,
        "register={:#010b}; should be 0b10000000",
        ppu.regs.status
    );

    // set other flag
    ppu.set_status(Status::SpriteZeroHit, true);
    assert_eq!(
        ppu.regs.status, 0b11000000,
        "register={:#010b}; should be 0b11000000",
        ppu.regs.status
    );

    ppu.set_status(Status::SpriteZeroHit, false);
    assert_eq!(
        ppu.regs.status, 0b10000000,
        "register={:#010b}; should be 0b10000000",
        ppu.regs.status
    );

    // set other register
    ppu.set_control(Control::IncrementMode, true);
    assert_eq!(
        ppu.regs.status, 0b10000000,
        "register={:#010b}; should be 0b10000000",
        ppu.regs.status
    );
    assert_eq!(
        ppu.regs.ctrl, 0b0000100,
        "register={:#010b}; should be 0b0000001",
        ppu.regs.ctrl
    );
}

#[test]
fn test_write_addr() {
    let mut ppu = PPU::new();
    let mut ppu_bus = PPUBus::new();
    assert_eq!(ppu.regs.addr, 0x0000);
    ppu.writeb(&mut ppu_bus, 0x2006, 0x12);
    assert_eq!(ppu.regs.addr, 0x1200);
    ppu.writeb(&mut ppu_bus, 0x2006, 0x34);
    assert_eq!(ppu.regs.addr, 0x1234);
    ppu.writeb(&mut ppu_bus, 0x2006, 0x56);
    assert_eq!(ppu.regs.addr, 0x5634);
}

#[test]
fn test_clock_wraps_cycles_and_scanlines() {
    let mut ppu = PPU::new();
    let mut bus = PPUBus::new();
    assert_eq!((ppu.cycle, ppu.scanline), (0, 0));
    for _ in 0..341 {
        ppu.clock(&mut bus);
    }
    assert_eq!((ppu.cycle, ppu.scanline), (0, 1));

    while !(ppu.scanline == 261 && ppu.cycle == 340) {
        ppu.clock(&mut bus);
    }
    assert!(!ppu.frame_ready);
    ppu.clock(&mut bus);
    assert_eq!((ppu.cycle, ppu.scanline), (0, 0));
    assert!(ppu.frame_ready);
}

#[test]
fn test_vblank_flag_timing() {
    // NMI disabled: the flag sets exactly at (241, 1) and no NMI is raised.
    let mut ppu = PPU::new();
    let mut bus = PPUBus::new();
    while !(ppu.scanline == 241 && ppu.cycle == 1) {
        assert!(!ppu.get_status(Status::VerticalBlank));
        ppu.clock(&mut bus);
    }
    assert!(ppu.get_status(Status::VerticalBlank));
    assert!(!ppu.nmi);

    // The flag stays set until exactly (261, 1).
    while !(ppu.scanline == 261 && ppu.cycle == 1) {
        assert!(ppu.get_status(Status::VerticalBlank));
        ppu.clock(&mut bus);
    }
    assert!(!ppu.get_status(Status::VerticalBlank));
}

#[test]
fn test_vblank_raises_nmi_when_enabled() {
    let mut ppu = PPU::new();
    let mut bus = PPUBus::new();
    ppu.set_control(Control::EnableNmi, true);
    while !(ppu.scanline == 241 && ppu.cycle == 1) {
        assert!(!ppu.nmi);
        ppu.clock(&mut bus);
    }
    assert!(ppu.nmi);
}

#[test]
fn test_status_read_side_effects() {
    let mut ppu = PPU::new();
    let mut bus = PPUBus::new();
    ppu.set_status(Status::VerticalBlank, true);
    // Latch the high byte of the VRAM address, then read the status.
    ppu.writeb(&mut bus, 0x2006, 0x12);
    assert_eq!(ppu.regs.addr, 0x1200);
    let status = ppu.readb(&bus, 0x2002);
    assert_eq!(status & 0x80, 0x80);
    // The read cleared the vertical-blank bit...
    assert!(!ppu.get_status(Status::VerticalBlank));
    let status2 = ppu.readb(&bus, 0x2002);
    assert_eq!(status2 & 0x80, 0x00);
    // ...and reset the latch: the next write carries the high byte again.
    ppu.writeb(&mut bus, 0x2006, 0x34);
    ppu.writeb(&mut bus, 0x2006, 0x56);
    assert_eq!(ppu.regs.addr, 0x3456);
}

#[test]
fn test_data_read_buffering() {
    let mut ppu = PPU::new();
    let mut bus = PPUBus::new();
    bus.writeb_ppu(0x0010, 0xAB);
    // Point the VRAM address at 0x0010.
    ppu.writeb(&mut bus, 0x2006, 0x00);
    ppu.writeb(&mut bus, 0x2006, 0x10);
    // The first read returns the stale buffer and refills it.
    assert_eq!(ppu.readb(&bus, 0x2007), 0x00);
    assert_eq!(ppu.readb(&bus, 0x2007), 0xAB);

    // Palette space bypasses the one-cycle delay.
    bus.writeb_ppu(0x3F05, 0x3C);
    ppu.writeb(&mut bus, 0x2006, 0x3F);
    ppu.writeb(&mut bus, 0x2006, 0x05);
    assert_eq!(ppu.readb(&bus, 0x2007), 0x3C);
}

#[test]
fn test_data_write_and_increment() {
    let mut ppu = PPU::new();
    let mut bus = PPUBus::new();
    ppu.writeb(&mut bus, 0x2006, 0x00);
    ppu.writeb(&mut bus, 0x2006, 0x20);
    ppu.writeb(&mut bus, 0x2007, 0x5A);
    assert_eq!(bus.readb_ppu(0x0020), 0x5A);
    assert_eq!(ppu.regs.addr, 0x0021);

    ppu.set_control(Control::IncrementMode, true);
    ppu.writeb(&mut bus, 0x2007, 0x5B);
    assert_eq!(bus.readb_ppu(0x0021), 0x5B);
    assert_eq!(ppu.regs.addr, 0x0021 + 32);
}

#[test]
fn test_unreadable_registers_return_zero() {
    let mut ppu = PPU::new();
    let bus = PPUBus::new();
    assert_eq!(ppu.readb(&bus, 0x2000), 0x00);
    assert_eq!(ppu.readb(&bus, 0x2001), 0x00);
    assert_eq!(ppu.readb(&bus, 0x2004), 0x00);
    assert_eq!(ppu.readb(&bus, 0x2006), 0x00);
}

#[test]
fn test_control_and_mask_written_wholesale() {
    let mut ppu = PPU::new();
    let mut bus = PPUBus::new();
    ppu.writeb(&mut bus, 0x2000, 0xA5);
    assert_eq!(ppu.regs.ctrl, 0xA5);
    ppu.writeb(&mut bus, 0x2001, 0x5A);
    assert_eq!(ppu.regs.mask, 0x5A);
    // Reserved registers discard their writes.
    ppu.writeb(&mut bus, 0x2003, 0x11);
    ppu.writeb(&mut bus, 0x2005, 0x22);
    assert_eq!(ppu.regs.oam_addr, 0x00);
    assert_eq!(ppu.regs.scroll, 0x00);
}

#[test]
fn test_reset_clears_registers_only() {
    let mut ppu = PPU::new();
    let mut bus = PPUBus::new();
    ppu.set_control(Control::EnableNmi, true);
    for _ in 0..5 {
        ppu.clock(&mut bus);
    }
    ppu.reset();
    assert_eq!(ppu.regs.ctrl, 0x00);
    assert_eq!(ppu.regs.status, 0x00);
    assert_eq!(ppu.cycle, 5);
}

#[test]
fn test_get_palette_reads_palette_memory() {
    let mut ppu = PPU::new();
    let mut bus = PPUBus::new();
    // Palette 3 occupies 0x3F0C..0x3F10.
    bus.writeb_ppu(0x3F0C, 0x01);
    bus.writeb_ppu(0x3F0D, 0x21);
    bus.writeb_ppu(0x3F0E, 0x31);
    bus.writeb_ppu(0x3F0F, 0x16);
    let swatch = ppu.get_palette(&bus, 3);
    assert_eq!(sprite_pixel(swatch, 0, 0), palette_color(0x01));
    assert_eq!(sprite_pixel(swatch, 1, 0), palette_color(0x21));
    assert_eq!(sprite_pixel(swatch, 2, 0), palette_color(0x31));
    assert_eq!(sprite_pixel(swatch, 3, 0), palette_color(0x16));
    assert_ne!(sprite_pixel(swatch, 0, 0), palette_color(0x00));
}

#[test]
fn test_get_palette_masks_color_index() {
    let mut ppu = PPU::new();
    let mut bus = PPUBus::new();
    // Color indices are limited to 6 bits.
    bus.writeb_ppu(0x3F04, 0x41);
    let swatch = ppu.get_palette(&bus, 1);
    assert_eq!(sprite_pixel(swatch, 0, 0), palette_color(0x01));
}

#[test]
fn test_get_pattern_table_renders_tile() {
    let mut ppu = PPU::new();
    let mut bus = PPUBus::new();
    // Tile (0, 0) of table 0, pixel row 0: both bitplanes carry bit 7, so
    // the leftmost pixel has value 2 and the rest of the row value 0.
    bus.writeb_ppu(0x0000, 0x80);
    bus.writeb_ppu(0x0008, 0x80);
    bus.writeb_ppu(0x3F00, 0x0D);
    bus.writeb_ppu(0x3F02, 0x2A);
    let table = ppu.get_pattern_table(&bus, 0, 0);
    assert_eq!(sprite_pixel(table, 0, 0), palette_color(0x2A));
    assert_eq!(sprite_pixel(table, 1, 0), palette_color(0x0D));
    assert_eq!(sprite_pixel(table, 7, 0), palette_color(0x0D));
}

#[test]
fn test_get_pattern_table_second_table() {
    let mut ppu = PPU::new();
    let mut bus = PPUBus::new();
    // Tile (0, 0) of table 1 starts at 0x1000; only the low bitplane carries
    // bit 0, so the rightmost pixel of row 0 has value 1.
    bus.writeb_ppu(0x1000, 0x01);
    bus.writeb_ppu(0x3F01, 0x11);
    bus.writeb_ppu(0x3F00, 0x0D);
    let table = ppu.get_pattern_table(&bus, 1, 0);
    assert_eq!(sprite_pixel(table, 7, 0), palette_color(0x11));
    assert_eq!(sprite_pixel(table, 6, 0), palette_color(0x0D));
}
