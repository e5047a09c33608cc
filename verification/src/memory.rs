//! The memory interfaces: the CPU-visible bus, the consumer-side reader
//! helpers, the PPU-side memory interface, and the console bus that routes
//! CPU addresses to RAM, the cartridge or the picture processor's registers.

use vstd::prelude::*;

verus! {

use crate::Addr;
use crate::Byte;
use crate::Word;
use crate::cartridge::Cartridge;
use crate::ppu::PPU;
use crate::ppu::spec_reg_read_next;
use crate::ppu::spec_reg_read_value;
use crate::ppu::spec_reg_write_next;
use crate::zeroed;

/// Physical RAM size in bytes: a 2 KiB window mirrored across 8 KiB.
pub const RAM_SIZE: usize = 0x0800;

/// The CPU-visible memory interface: byte reads and writes, plus 16-bit
/// little-endian word access built from two byte operations (low byte
/// first). Reads may have side effects (the picture processor's registers
/// do), so both directions take the bus exclusively.
pub trait Memory: Sized {
    /// The interface invariant that reads and writes preserve.
    spec fn inv(&self) -> bool;

    /// The byte a read of `addr` returns.
    spec fn spec_read(&self, addr: Addr) -> Byte;

    /// The state after a read of `addr`.
    spec fn spec_read_next(&self, addr: Addr) -> Self;

    /// How a write of `data` at `addr` relates the old and the new state.
    spec fn write_rel(self, addr: Addr, data: Byte, next: Self) -> bool;

    /// Read one byte.
    fn readb(&mut self, addr: Addr) -> (r: Byte)
        requires
            old(self).inv(),
        ensures
            final(self).inv(),
            r == old(self).spec_read(addr),
            *final(self) == old(self).spec_read_next(addr),
    ;

    /// Write one byte.
    fn writeb(&mut self, addr: Addr, data: Byte)
        requires
            old(self).inv(),
        ensures
            final(self).inv(),
            old(self).write_rel(addr, data, *final(self)),
    ;

    /// Read a little-endian word: the low byte at `addr`, then the high byte
    /// at `addr + 1`.
    fn readw(&mut self, addr: Addr) -> (r: Word)
        requires
            old(self).inv(),
            addr < 0xffff,
        ensures
            final(self).inv(),
            *final(self) == old(self).spec_read_next(addr).spec_read_next((addr + 1) as Addr),
            r == (old(self).spec_read_next(addr).spec_read((addr + 1) as Addr) as Word) << 8 | old(
                self,
            ).spec_read(addr) as Word,
    {
        let lo = self.readb(addr);
        let hi = self.readb(addr + 1);
        (hi as Word) << 8 | lo as Word
    }

    /// Write a little-endian word: the low byte to `addr`, then the high
    /// byte to `addr + 1`: some intermediate state follows the low-byte
    /// write and leads through the high-byte write to the final state.
    fn writew(&mut self, addr: Addr, data: Word)
        requires
            old(self).inv(),
            addr < 0xffff,
        ensures
            final(self).inv(),
            ({
                let lo = (data & 0xff) as Byte;
                let hi = (data >> 8) as Byte;
                let addr2 = (addr + 1) as Addr;
                exists|mid: Self|
                    old(self).write_rel(addr, lo, mid) && mid.write_rel(addr2, hi, *final(self))
            }),
    {
        proof {
            assert(data & 0xff < 0x100) by (bit_vector);
            assert(data >> 8 < 0x100) by (bit_vector);
        }
        self.writeb(addr, (data & 0xff) as Byte);
        let ghost mid = *self;
        self.writeb(addr + 1, (data >> 8) as Byte);
        proof {
            let lo = (data & 0xff) as Byte;
            let hi = (data >> 8) as Byte;
            let addr2 = (addr + 1) as Addr;
            assert(old(self).write_rel(addr, lo, mid) && mid.write_rel(addr2, hi, *self));
        }
    }
}

/// Helpers for a component that consumes a `Memory` (such as the CPU's
/// execution engine): each call forwards to the bus it is handed.
pub trait MemoryReader: Sized {
    /// Read one byte from `mem`.
    fn readb<T: Memory>(&self, mem: &mut T, addr: Addr) -> (r: Byte)
        requires
            old(mem).inv(),
        ensures
            final(mem).inv(),
            r == old(mem).spec_read(addr),
            *final(mem) == old(mem).spec_read_next(addr),
    {
        mem.readb(addr)
    }

    /// Read a little-endian word from `mem`.
    fn readw<T: Memory>(&self, mem: &mut T, addr: Addr) -> (r: Word)
        requires
            old(mem).inv(),
            addr < 0xffff,
        ensures
            final(mem).inv(),
            *final(mem) == old(mem).spec_read_next(addr).spec_read_next((addr + 1) as Addr),
            r == (old(mem).spec_read_next(addr).spec_read((addr + 1) as Addr) as Word) << 8 | old(
                mem,
            ).spec_read(addr) as Word,
    {
        mem.readw(addr)
    }

    /// Write one byte to `mem`.
    fn writeb<T: Memory>(&mut self, mem: &mut T, addr: Addr, data: Byte)
        requires
            old(mem).inv(),
        ensures
            final(mem).inv(),
            old(mem).write_rel(addr, data, *final(mem)),
            *final(self) == *old(self),
    {
        mem.writeb(addr, data)
    }
}

/// The PPU-side memory interface: a 16 KiB address space reached with 14-bit
/// addresses; higher address bits are mirrored away.
pub trait PPUMemory: Sized {
    /// The interface invariant that reads and writes preserve.
    spec fn ppu_inv(&self) -> bool;

    /// The 16 KiB of bytes the interface exposes, one per 14-bit address.
    spec fn ppu_view(&self) -> Seq<Byte>;

    /// The view covers exactly the 14-bit address space.
    proof fn ppu_view_len(&self)
        requires
            self.ppu_inv(),
        ensures
            self.ppu_view().len() == 0x4000,
    ;

    /// Read one byte from PPU-side memory.
    fn readb_ppu(&self, addr: Addr) -> (r: Byte)
        requires
            self.ppu_inv(),
        ensures
            r == self.ppu_view()[(addr & 0x3fff) as int],
    ;

    /// Write one byte to PPU-side memory.
    fn writeb_ppu(&mut self, addr: Addr, data: Byte)
        requires
            old(self).ppu_inv(),
        ensures
            final(self).ppu_inv(),
            final(self).ppu_view() == old(self).ppu_view().update((addr & 0x3fff) as int, data),
    ;

    /// Read a little-endian word from PPU-side memory.
    fn readw_ppu(&self, addr: Addr) -> (r: Word)
        requires
            self.ppu_inv(),
            addr < 0xffff,
        ensures
            r == (self.ppu_view()[(((addr + 1) as Addr) & 0x3fff) as int] as Word) << 8
                | self.ppu_view()[(addr & 0x3fff) as int] as Word,
    {
        let lo = self.readb_ppu(addr);
        let hi = self.readb_ppu(addr + 1);
        (hi as Word) << 8 | lo as Word
    }

    /// Write a little-endian word to PPU-side memory.
    fn writew_ppu(&mut self, addr: Addr, data: Word)
        requires
            old(self).ppu_inv(),
            addr < 0xffff,
        ensures
            final(self).ppu_inv(),
            final(self).ppu_view() == old(self).ppu_view().update(
                (addr & 0x3fff) as int,
                (data & 0xff) as Byte,
            ).update((((addr + 1) as Addr) & 0x3fff) as int, (data >> 8) as Byte),
    {
        self.writeb_ppu(addr, (data & 0xff) as Byte);
        self.writeb_ppu(addr + 1, (data >> 8) as Byte);
    }
}

/// The PPU-side address space as flat storage: 16 KiB of bytes, with
/// addresses mirrored down to 14 bits.
pub struct PPUBus {
    pub mem: Vec<Byte>,
}

impl PPUBus {
    /// A PPU-side bus with all 16 KiB zeroed.
    pub fn new() -> (r: PPUBus)
        ensures
            r.ppu_inv(),
            r.ppu_view() == Seq::new(0x4000nat, |i: int| 0u8),
    {
        PPUBus { mem: zeroed(0x4000) }
    }
}

impl PPUMemory for PPUBus {
    open spec fn ppu_inv(&self) -> bool {
        self.mem@.len() == 0x4000
    }

    open spec fn ppu_view(&self) -> Seq<Byte> {
        self.mem@
    }

    proof fn ppu_view_len(&self) {
    }

    fn readb_ppu(&self, addr: Addr) -> (r: Byte) {
        proof {
            assert(addr & 0x3fff < 0x4000) by (bit_vector);
        }
        self.mem[(addr & 0x3fff) as usize]
    }

    fn writeb_ppu(&mut self, addr: Addr, data: Byte) {
        proof {
            assert(addr & 0x3fff < 0x4000) by (bit_vector);
        }
        self.mem[(addr & 0x3fff) as usize] = data;
    }
}

/// The console's CPU-visible memory: 2 KiB of mirrored RAM, an optional
/// cartridge, and the picture processor together with its own address
/// space. The bus owns the picture processor outright and exposes it
/// through narrow accessors.
pub struct NESMemory {
    /// Physical RAM, mirrored across the 8 KiB window.
    pub ram: Vec<Byte>,
    /// The inserted cartridge, if any.
    pub cartridge: Option<Cartridge>,
    /// The picture processor.
    pub ppu: PPU,
    /// The picture processor's own address space.
    pub ppu_bus: PPUBus,
}

/// The byte the cartridge supplies for a bus read of `addr`: only when a
/// cartridge is present, the address lies in the cartridge window, and the
/// mapping strategy claims it.
pub open spec fn spec_cart_read(m: NESMemory, addr: Addr) -> Option<Byte> {
    match m.cartridge {
        Some(c) => if addr >= 0x4020 {
            c.spec_readb(addr)
        } else {
            None
        },
        None => None,
    }
}

/// The byte a bus read of `addr` returns, in the console's priority order:
/// a cartridge-claimed address first; then mirrored RAM; then the mirrored
/// picture-processor register window; unmapped reads return 0.
pub open spec fn spec_bus_read_value(m: NESMemory, addr: Addr) -> Byte {
    match spec_cart_read(m, addr) {
        Some(b) => b,
        None => if addr <= 0x1fff {
            m.ram@[(addr & 0x07ff) as int]
        } else if addr <= 0x3fff {
            spec_reg_read_value(m.ppu, m.ppu_bus.ppu_view(), addr & 0x2007)
        } else {
            0
        },
    }
}

/// The bus after a read of `addr`: only a read routed to the
/// picture-processor window changes anything.
pub open spec fn spec_bus_read_next(m: NESMemory, addr: Addr) -> NESMemory {
    if spec_cart_read(m, addr) is Some {
        m
    } else if addr <= 0x1fff {
        m
    } else if addr <= 0x3fff {
        NESMemory { ppu: spec_reg_read_next(m.ppu, m.ppu_bus.ppu_view(), addr & 0x2007), ..m }
    } else {
        m
    }
}

/// How a bus write of `data` at `addr` relates the old state `m` to the new
/// state `n`: a cartridge sees a write in its window first; the RAM and
/// picture-processor checks are unconditional (their windows are disjoint
/// from the cartridge's).
pub open spec fn spec_bus_write_rel(m: NESMemory, addr: Addr, data: Byte, n: NESMemory) -> bool {
    &&& match (m.cartridge, n.cartridge) {
        (Some(c), Some(c2)) => {
            &&& c2.mapper == c.mapper
            &&& c2.mirror == c.mirror
            &&& c2.chr_rom@ == c.chr_rom@
            &&& c2.prg_rom@ == if addr >= 0x4020 {
                c.spec_prg_after_write(addr, data)
            } else {
                c.prg_rom@
            }
        },
        (None, None) => true,
        _ => false,
    }
    &&& n.ram@ == if addr <= 0x1fff {
        m.ram@.update((addr & 0x07ff) as int, data)
    } else {
        m.ram@
    }
    &&& n.ppu == if 0x2000 <= addr && addr <= 0x3fff {
        spec_reg_write_next(m.ppu, addr & 0x2007, data)
    } else {
        m.ppu
    }
    &&& n.ppu_bus.ppu_view() == if 0x2000 <= addr && addr <= 0x3fff && addr & 0x2007 == 0x2007 {
        m.ppu_bus.ppu_view().update((m.ppu.regs.addr & 0x3fff) as int, data)
    } else {
        m.ppu_bus.ppu_view()
    }
}

impl NESMemory {
    /// RAM and the PPU-side space have their physical sizes, the picture
    /// processor is well formed, and so is the cartridge when present.
    pub open spec fn wf(&self) -> bool {
        &&& self.ram@.len() == RAM_SIZE
        &&& self.ppu.wf()
        &&& self.ppu_bus.ppu_inv()
        &&& match self.cartridge {
            Some(c) => c.wf(),
            None => true,
        }
    }

    /// A console bus around the given picture processor: zeroed RAM, a
    /// zeroed PPU-side address space, and no cartridge.
    pub fn new(ppu: PPU) -> (r: NESMemory)
        requires
            ppu.wf(),
        ensures
            r.wf(),
            r.ppu == ppu,
            r.cartridge is None,
            r.ram@ == Seq::new(RAM_SIZE as nat, |i: int| 0u8),
            r.ppu_bus.ppu_view() == Seq::new(0x4000nat, |i: int| 0u8),
    {
        NESMemory { ram: zeroed(RAM_SIZE), cartridge: None, ppu, ppu_bus: PPUBus::new() }
    }

    /// Insert a cartridge; the rest of the bus is untouched.
    pub fn insert_cartridge(&mut self, c: Cartridge)
        requires
            old(self).wf(),
            c.wf(),
        ensures
            final(self).wf(),
            *final(self) == (NESMemory { cartridge: Some(c), ..*old(self) }),
    {
        self.cartridge = Some(c);
    }

    /// The picture processor, for the driver that samples the interrupt and
    /// frame flags.
    pub fn ppu(&self) -> (r: &PPU)
        ensures
            *r == self.ppu,
    {
        &self.ppu
    }

    /// Exclusive access to the picture processor.
    pub fn ppu_mut(&mut self) -> (r: &mut PPU)
        ensures
            *r == old(self).ppu,
            *final(self) == (NESMemory { ppu: *final(r), ..*old(self) }),
    {
        &mut self.ppu
    }
}

impl Memory for NESMemory {
    open spec fn inv(&self) -> bool {
        self.wf()
    }

    open spec fn spec_read(&self, addr: Addr) -> Byte {
        spec_bus_read_value(*self, addr)
    }

    open spec fn spec_read_next(&self, addr: Addr) -> NESMemory {
        spec_bus_read_next(*self, addr)
    }

    open spec fn write_rel(self, addr: Addr, data: Byte, next: NESMemory) -> bool {
        spec_bus_write_rel(self, addr, data, next)
    }

    fn readb(&mut self, addr: Addr) -> (r: Byte) {
        if addr >= 0x4020 {
            if let Some(cartridge) = &self.cartridge {
                if let Some(b) = cartridge.readb(addr) {
                    return b;
                }
            }
        }
        if addr <= 0x1fff {
            proof {
                assert(addr & 0x07ff < 0x0800) by (bit_vector);
            }
            return self.ram[(addr & 0x07ff) as usize];
        }
        if addr <= 0x3fff {
            return self.ppu.readb(&self.ppu_bus, addr & 0x2007);
        }
        0x00
    }

    fn writeb(&mut self, addr: Addr, data: Byte) {
        if addr >= 0x4020 {
            if let Some(cartridge) = &mut self.cartridge {
                let _ = cartridge.writeb(addr, data);
            }
        }
        if addr <= 0x1fff {
            proof {
                assert(addr & 0x07ff < 0x0800) by (bit_vector);
            }
            self.ram[(addr & 0x07ff) as usize] = data;
        }
        if 0x2000 <= addr && addr <= 0x3fff {
            self.ppu.writeb(&mut self.ppu_bus, addr & 0x2007, data);
        }
    }
}

} // verus!
