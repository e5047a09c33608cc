use nes_core::cartridge::{Cartridge, MirrorMode};
use nes_core::memory::{Memory, MemoryReader, NESMemory, PPUBus, PPUMemory};
use nes_core::ppu::{Status, PPU};

#[test]
fn test_ram_mirroring() {
    let mut mem = NESMemory::new(PPU::new());
    mem.writeb(0x0000, 0x42);
    assert_eq!(mem.readb(0x0000), 0x42);
    assert_eq!(mem.readb(0x0800), 0x42);
    assert_eq!(mem.readb(0x1000), 0x42);
    assert_eq!(mem.readb(0x1800), 0x42);
    mem.writeb(0x1FFF, 0x07);
    assert_eq!(mem.readb(0x07FF), 0x07);
}

#[test]
fn test_unmapped_reads_return_zero() {
    let mut mem = NESMemory::new(PPU::new());
    // The cartridge window without a cartridge.
    assert_eq!(mem.readb(0x4020), 0x00);
    assert_eq!(mem.readb(0x8000), 0x00);
    // Between the picture-processor window and the cartridge window.
    assert_eq!(mem.readb(0x4000), 0x00);
    // Writes there are silently dropped.
    mem.writeb(0x4000, 0x55);
    assert_eq!(mem.readb(0x4000), 0x00);
}

#[test]
fn test_cartridge_window_routing() {
    let mut mem = NESMemory::new(PPU::new());
    let mut cart = Cartridge::dummy(MirrorMode::HORIZONTAL);
    cart.writeb(0x8000, 0x99);
    mem.insert_cartridge(cart);
    assert_eq!(mem.readb(0x8000), 0x99);
    // One 16 KiB bank is mirrored across the window.
    assert_eq!(mem.readb(0xC000), 0x99);
    // Writes in the window reach the cartridge.
    mem.writeb(0x9000, 0x55);
    assert_eq!(mem.readb(0x9000), 0x55);
    // An address the strategy leaves unmapped falls through to zero.
    assert_eq!(mem.readb(0x4020), 0x00);
    // RAM still works with a cartridge inserted.
    mem.writeb(0x0123, 0x77);
    assert_eq!(mem.readb(0x0123), 0x77);
}

#[test]
fn test_ppu_register_window_mirroring() {
    let mut mem = NESMemory::new(PPU::new());
    // The 8-byte register window repeats across 0x2000-0x3FFF: these two
    // addresses both reach the address register.
    mem.writeb(0x200E, 0x12);
    mem.writeb(0x3FFE, 0x34);
    assert_eq!(mem.ppu().regs.addr, 0x1234);
}

#[test]
fn test_status_read_through_bus() {
    let mut mem = NESMemory::new(PPU::new());
    mem.ppu_mut().set_status(Status::VerticalBlank, true);
    let s = mem.readb(0x2002);
    assert_eq!(s & 0x80, 0x80);
    assert!(!mem.ppu().get_status(Status::VerticalBlank));
}

#[test]
fn test_data_write_through_bus() {
    let mut mem = NESMemory::new(PPU::new());
    mem.writeb(0x2006, 0x00);
    mem.writeb(0x2006, 0x40);
    mem.writeb(0x2007, 0x77);
    assert_eq!(mem.ppu_bus.readb_ppu(0x0040), 0x77);
    assert_eq!(mem.ppu().regs.addr, 0x0041);
}

#[test]
fn test_word_access_little_endian() {
    let mut mem = NESMemory::new(PPU::new());
    mem.writew(0x0010, 0xBEEF);
    assert_eq!(mem.readb(0x0010), 0xEF);
    assert_eq!(mem.readb(0x0011), 0xBE);
    assert_eq!(mem.readw(0x0010), 0xBEEF);
}

#[test]
fn test_ppu_bus_word_access() {
    let mut bus = PPUBus::new();
    bus.writew_ppu(0x0100, 0xCAFE);
    assert_eq!(bus.readb_ppu(0x0100), 0xFE);
    assert_eq!(bus.readb_ppu(0x0101), 0xCA);
    assert_eq!(bus.readw_ppu(0x0100), 0xCAFE);
    // Addresses mirror down to 14 bits.
    assert_eq!(bus.readb_ppu(0x4100), 0xFE);
}

struct Probe;

impl MemoryReader for Probe {}

#[test]
fn test_memory_reader_forwards() {
    let mut probe = Probe;
    let mut mem = NESMemory::new(PPU::new());
    probe.writeb(&mut mem, 0x0005, 0x12);
    assert_eq!(probe.readb(&mut mem, 0x0005), 0x12);
    assert_eq!(probe.readw(&mut mem, 0x0004), 0x1200);
}
