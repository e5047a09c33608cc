//! Cartridge ROM loading: the 16-byte container header, the address-mapping
//! strategy, and the cartridge that owns the PRG/CHR ROM banks.

use vstd::prelude::*;

verus! {

use crate::Addr;
use crate::Byte;
use crate::zeroed;

/// Nametable mirroring mode.
#[allow(non_camel_case_types)]
#[derive(PartialEq, Eq, Debug, Copy, Clone)]
pub enum MirrorMode {
    HORIZONTAL,
    VERTICAL,
}

/// The parsed fixed-size header of a ROM container: bank counts, the two
/// mapper-flag bytes, and bytes the core does not use. Immutable once parsed.
#[derive(PartialEq, Eq, Debug, Copy, Clone)]
pub struct Header {
    /// PRG ROM size in 16 KiB chunks.
    pub prg_rom_chunks: Byte,
    /// CHR ROM size in 8 KiB chunks.
    pub chr_rom_chunks: Byte,
    /// Flag byte 1: mirroring, trainer flag, mapper id low nibble.
    pub mapper1: Byte,
    /// Flag byte 2: mapper id high nibble.
    pub mapper2: Byte,
    /// PRG RAM size byte; unused by the core.
    pub prg_ram_size: Byte,
    /// First TV-system byte; unused by the core.
    pub tv1: Byte,
    /// Second TV-system byte; unused by the core.
    pub tv2: Byte,
}

/// The header encoded in the first 16 bytes of a ROM container. Bytes 0-3
/// (the magic) and 11-15 (reserved) are skipped without validation.
pub open spec fn spec_header(data: Seq<u8>) -> Header {
    Header {
        prg_rom_chunks: data[4],
        chr_rom_chunks: data[5],
        mapper1: data[6],
        mapper2: data[7],
        prg_ram_size: data[8],
        tv1: data[9],
        tv2: data[10],
    }
}

impl Header {
    /// Parse the fixed 16-byte header at the start of a ROM container.
    pub fn parse(data: &[u8]) -> (h: Header)
        requires
            data@.len() >= 16,
        ensures
            h == spec_header(data@),
    {
        Header {
            prg_rom_chunks: data[4],
            chr_rom_chunks: data[5],
            mapper1: data[6],
            mapper2: data[7],
            prg_ram_size: data[8],
            tv1: data[9],
            tv2: data[10],
        }
    }

    /// Whether a 512-byte trainer block precedes the PRG data.
    pub open spec fn spec_has_trainer(self) -> bool {
        self.mapper1 & 0x04 != 0
    }

    /// Whether flag byte 1 announces a 512-byte trainer block (bit 2).
    pub fn has_trainer(&self) -> (r: bool)
        ensures
            r == self.spec_has_trainer(),
    {
        self.mapper1 & 0x04 != 0
    }

    /// The mapper id: high nibble of flag byte 2 over high nibble of flag
    /// byte 1.
    pub open spec fn spec_mapper_id(self) -> Byte {
        ((self.mapper2 >> 4) << 4) | (self.mapper1 >> 4)
    }

    /// Combine the two flag-byte nibbles into the mapper id.
    pub fn get_mapper_id(&self) -> (r: Byte)
        ensures
            r == self.spec_mapper_id(),
    {
        let hi = (self.mapper2 >> 4) << 4;
        let lo = self.mapper1 >> 4;
        hi | lo
    }

    /// The mirroring mode bit 0 of flag byte 1 selects.
    pub open spec fn spec_mirror_mode(self) -> MirrorMode {
        if self.mapper1 & 0x01 == 0 {
            MirrorMode::HORIZONTAL
        } else {
            MirrorMode::VERTICAL
        }
    }

    /// The nametable mirroring mode the header selects.
    pub fn get_mirror_mode(&self) -> (r: MirrorMode)
        ensures
            r == self.spec_mirror_mode(),
    {
        if self.mapper1 & 0x01 == 0 {
            MirrorMode::HORIZONTAL
        } else {
            MirrorMode::VERTICAL
        }
    }
}

/// The address-mapping strategy a cartridge dispatches through: a closed set
/// of variants, one per supported strategy. Strategies only compute offsets;
/// the cartridge owns the ROM bytes and applies the offset itself.
#[derive(PartialEq, Eq, Debug, Copy, Clone)]
pub enum Mapper {
    /// The simplest strategy: a single PRG bank of 16 or 32 KiB, mirrored
    /// across the upper CPU address space when only one 16 KiB bank is
    /// present, and a fixed CHR bank that is writable only when supplied as
    /// RAM (zero CHR chunks).
    Mapper0 { prg_banks: Byte, chr_banks: Byte },
}

impl Mapper {
    /// The PRG offset a CPU-side read of `addr` maps to, if any.
    pub open spec fn spec_map_read_addr(self, addr: Addr) -> Option<Addr> {
        match self {
            Mapper::Mapper0 { prg_banks, .. } => if addr >= 0x8000 {
                Some(addr & (if prg_banks > 1 { 0x7fff } else { 0x3fff }))
            } else {
                None
            },
        }
    }

    /// Map a CPU-side read address to a PRG ROM offset.
    pub fn map_read_addr(&self, addr: Addr) -> (r: Option<Addr>)
        ensures
            r == self.spec_map_read_addr(addr),
    {
        match self {
            Mapper::Mapper0 { prg_banks, .. } => if addr >= 0x8000 {
                Some(addr & (if *prg_banks > 1 { 0x7fff } else { 0x3fff }))
            } else {
                None
            },
        }
    }

    /// The PRG offset a CPU-side write of `addr` maps to, if any.
    pub open spec fn spec_map_write_addr(self, addr: Addr) -> Option<Addr> {
        self.spec_map_read_addr(addr)
    }

    /// Map a CPU-side write address to a PRG ROM offset.
    pub fn map_write_addr(&self, addr: Addr) -> (r: Option<Addr>)
        ensures
            r == self.spec_map_write_addr(addr),
    {
        self.map_read_addr(addr)
    }

    /// The CHR offset a PPU-side read of `addr` maps to, if any.
    pub open spec fn spec_map_read_addr_ppu(self, addr: Addr) -> Option<Addr> {
        match self {
            Mapper::Mapper0 { .. } => if addr <= 0x1fff {
                Some(addr)
            } else {
                None
            },
        }
    }

    /// Map a PPU-side read address to a CHR ROM offset.
    pub fn map_read_addr_ppu(&self, addr: Addr) -> (r: Option<Addr>)
        ensures
            r == self.spec_map_read_addr_ppu(addr),
    {
        match self {
            Mapper::Mapper0 { .. } => if addr <= 0x1fff {
                Some(addr)
            } else {
                None
            },
        }
    }

    /// The CHR offset a PPU-side write of `addr` maps to, if any: the pattern
    /// space is writable only when CHR is supplied as RAM (zero CHR chunks).
    pub open spec fn spec_map_write_addr_ppu(self, addr: Addr) -> Option<Addr> {
        match self {
            Mapper::Mapper0 { chr_banks, .. } => if addr <= 0x1fff && chr_banks == 0 {
                Some(addr)
            } else {
                None
            },
        }
    }

    /// Map a PPU-side write address to a CHR offset.
    pub fn map_write_addr_ppu(&self, addr: Addr) -> (r: Option<Addr>)
        ensures
            r == self.spec_map_write_addr_ppu(addr),
    {
        match self {
            Mapper::Mapper0 { chr_banks, .. } => if addr <= 0x1fff && *chr_banks == 0 {
                Some(addr)
            } else {
                None
            },
        }
    }
}

/// Why loading a ROM container failed.
#[derive(PartialEq, Eq, Debug, Copy, Clone)]
pub enum LoadError {
    /// The data ends before the header, trainer and ROM banks it announces.
    Truncated,
    /// The header selects an address-mapping strategy that is not supported;
    /// carries the offending mapper id.
    UnsupportedMapper(Byte),
}

/// A loaded cartridge: its PRG and CHR ROM bytes, the mapping strategy the
/// header selected, and the resolved mirroring mode.
#[derive(PartialEq, Eq, Debug)]
pub struct Cartridge {
    pub prg_rom: Vec<Byte>,
    pub chr_rom: Vec<Byte>,
    pub mapper: Mapper,
    pub mirror: MirrorMode,
}

/// The length of the trainer block the header announces: 512 bytes or none.
pub open spec fn spec_trainer_len(h: Header) -> int {
    if h.spec_has_trainer() {
        512
    } else {
        0
    }
}

/// How many bytes a container with this header must hold: the header, the
/// optional trainer, and both ROM banks.
pub open spec fn spec_needed_len(h: Header) -> int {
    16 + spec_trainer_len(h) + h.prg_rom_chunks as int * 16384 + h.chr_rom_chunks as int * 8192
}

/// Copy `count` bytes of `data` starting at `start` into a fresh vector.
fn copy_range(data: &[u8], start: usize, count: usize) -> (r: Vec<u8>)
    requires
        start + count <= data@.len(),
    ensures
        r@ == data@.subrange(start as int, start as int + count as int),
{
    let dlen = data.len();
    let mut r: Vec<u8> = Vec::new();
    let mut i: usize = 0;
    while i < count
        invariant
            start + count <= dlen,
            dlen == data@.len(),
            i <= count,
            r@ == data@.subrange(start as int, start as int + i as int),
        decreases count - i,
    {
        let b = data[start + i];
        r.push(b);
        proof {
            assert(data@.subrange(start as int, start as int + i as int + 1)
                =~= data@.subrange(start as int, start as int + i as int).push(b));
        }
        i += 1;
    }
    r
}

impl Cartridge {
    /// ROM sizes are exact multiples of the chunk sizes the mapper was built
    /// with.
    pub open spec fn wf(&self) -> bool {
        match self.mapper {
            Mapper::Mapper0 { prg_banks, chr_banks } => {
                &&& self.prg_rom@.len() == prg_banks as int * 16384
                &&& self.chr_rom@.len() == chr_banks as int * 8192
            },
        }
    }

    /// Parse a ROM container held in memory: the 16-byte header, an optional
    /// 512-byte trainer block (skipped, never retained), then the PRG and CHR
    /// ROM banks. Only mapper id 0 is supported; any other id is rejected by
    /// name. Data past the announced banks is ignored.
    pub fn from_bytes(data: &[u8]) -> (r: Result<Cartridge, LoadError>)
        ensures
            data@.len() < 16 ==> r == Err::<Cartridge, LoadError>(LoadError::Truncated),
            data@.len() >= 16 && data@.len() < spec_needed_len(spec_header(data@)) ==> r
                == Err::<Cartridge, LoadError>(LoadError::Truncated),
            data@.len() >= 16 && data@.len() >= spec_needed_len(spec_header(data@))
                && spec_header(data@).spec_mapper_id() != 0 ==> r == Err::<Cartridge, LoadError>(
                LoadError::UnsupportedMapper(spec_header(data@).spec_mapper_id()),
            ),
            data@.len() >= 16 && data@.len() >= spec_needed_len(spec_header(data@))
                && spec_header(data@).spec_mapper_id() == 0 ==> (r matches Ok(c) && {
                let h = spec_header(data@);
                let start = 16 + spec_trainer_len(h);
                let prg_len = h.prg_rom_chunks as int * 16384;
                let chr_len = h.chr_rom_chunks as int * 8192;
                &&& c.wf()
                &&& c.mapper == (Mapper::Mapper0 {
                    prg_banks: h.prg_rom_chunks,
                    chr_banks: h.chr_rom_chunks,
                })
                &&& c.mirror == h.spec_mirror_mode()
                &&& c.prg_rom@ == data@.subrange(start, start + prg_len)
                &&& c.chr_rom@ == data@.subrange(start + prg_len, start + prg_len + chr_len)
            }),
    {
        if data.len() < 16 {
            return Err(LoadError::Truncated);
        }
        let header = Header::parse(data);
        let trainer: usize = if header.has_trainer() {
            512
        } else {
            0
        };
        let prg_len: usize = header.prg_rom_chunks as usize * 16384;
        let chr_len: usize = header.chr_rom_chunks as usize * 8192;
        let start: usize = 16 + trainer;
        if data.len() < start + prg_len || data.len() - (start + prg_len) < chr_len {
            return Err(LoadError::Truncated);
        }
        let mapper_id = header.get_mapper_id();
        if mapper_id != 0 {
            return Err(LoadError::UnsupportedMapper(mapper_id));
        }
        let prg_rom = copy_range(data, start, prg_len);
        let chr_rom = copy_range(data, start + prg_len, chr_len);
        Ok(
            Cartridge {
                prg_rom,
                chr_rom,
                mapper: Mapper::Mapper0 {
                    prg_banks: header.prg_rom_chunks,
                    chr_banks: header.chr_rom_chunks,
                },
                mirror: header.get_mirror_mode(),
            },
        )
    }

    /// A minimal valid cartridge for components that need a cartridge-shaped
    /// placeholder without a container: one zeroed PRG chunk, one zeroed CHR
    /// chunk, mapper 0, and the given mirroring mode.
    pub fn dummy(mirror: MirrorMode) -> (c: Cartridge)
        ensures
            c.wf(),
            c.mapper == (Mapper::Mapper0 { prg_banks: 1, chr_banks: 1 }),
            c.mirror == mirror,
            c.prg_rom@ == Seq::new(16384nat, |i: int| 0u8),
            c.chr_rom@ == Seq::new(8192nat, |i: int| 0u8),
    {
        Cartridge {
            prg_rom: zeroed(16384),
            chr_rom: zeroed(8192),
            mapper: Mapper::Mapper0 { prg_banks: 1, chr_banks: 1 },
            mirror,
        }
    }

    /// The byte a CPU-side read of `addr` yields, or `None` when the mapping
    /// strategy does not claim the address (or maps it outside the PRG bank).
    pub open spec fn spec_readb(&self, addr: Addr) -> Option<Byte> {
        match self.mapper.spec_map_read_addr(addr) {
            Some(mapped) => if mapped < self.prg_rom@.len() {
                Some(self.prg_rom@[mapped as int])
            } else {
                None
            },
            None => None,
        }
    }

    /// Read a byte from PRG space through the mapping strategy.
    pub fn readb(&self, addr: Addr) -> (r: Option<Byte>)
        ensures
            r == self.spec_readb(addr),
    {
        if let Some(mapped) = self.mapper.map_read_addr(addr) {
            if (mapped as usize) < self.prg_rom.len() {
                return Some(self.prg_rom[mapped as usize]);
            }
        }
        None
    }

    /// Whether the mapping strategy claims a CPU-side write of `addr` and
    /// maps it inside the PRG bank.
    pub open spec fn spec_write_handled(&self, addr: Addr) -> bool {
        match self.mapper.spec_map_write_addr(addr) {
            Some(mapped) => mapped < self.prg_rom@.len(),
            None => false,
        }
    }

    /// The PRG bytes after a CPU-side write of `data` at `addr`.
    pub open spec fn spec_prg_after_write(&self, addr: Addr, data: Byte) -> Seq<Byte> {
        match self.mapper.spec_map_write_addr(addr) {
            Some(mapped) => if mapped < self.prg_rom@.len() {
                self.prg_rom@.update(mapped as int, data)
            } else {
                self.prg_rom@
            },
            None => self.prg_rom@,
        }
    }

    /// Write a byte into PRG space through the mapping strategy; reports
    /// whether the cartridge handled the write.
    pub fn writeb(&mut self, addr: Addr, data: Byte) -> (r: bool)
        ensures
            final(self).prg_rom@ == old(self).spec_prg_after_write(addr, data),
            final(self).chr_rom@ == old(self).chr_rom@,
            final(self).mapper == old(self).mapper,
            final(self).mirror == old(self).mirror,
            r == old(self).spec_write_handled(addr),
    {
        if let Some(mapped) = self.mapper.map_write_addr(addr) {
            if (mapped as usize) < self.prg_rom.len() {
                self.prg_rom[mapped as usize] = data;
                return true;
            }
        }
        false
    }

    /// The byte a PPU-side read of `addr` yields, or `None` when the mapping
    /// strategy does not claim the address (or maps it outside the CHR bank).
    pub open spec fn spec_readb_ppu(&self, addr: Addr) -> Option<Byte> {
        match self.mapper.spec_map_read_addr_ppu(addr) {
            Some(mapped) => if mapped < self.chr_rom@.len() {
                Some(self.chr_rom@[mapped as int])
            } else {
                None
            },
            None => None,
        }
    }

    /// Read a byte from CHR space through the mapping strategy.
    pub fn readb_ppu(&self, addr: Addr) -> (r: Option<Byte>)
        ensures
            r == self.spec_readb_ppu(addr),
    {
        if let Some(mapped) = self.mapper.map_read_addr_ppu(addr) {
            if (mapped as usize) < self.chr_rom.len() {
                return Some(self.chr_rom[mapped as usize]);
            }
        }
        None
    }

    /// Whether the mapping strategy claims a PPU-side write of `addr` and
    /// maps it inside the CHR bank.
    pub open spec fn spec_write_ppu_handled(&self, addr: Addr) -> bool {
        match self.mapper.spec_map_write_addr_ppu(addr) {
            Some(mapped) => mapped < self.chr_rom@.len(),
            None => false,
        }
    }

    /// The CHR bytes after a PPU-side write of `data` at `addr`.
    pub open spec fn spec_chr_after_write(&self, addr: Addr, data: Byte) -> Seq<Byte> {
        match self.mapper.spec_map_write_addr_ppu(addr) {
            Some(mapped) => if mapped < self.chr_rom@.len() {
                self.chr_rom@.update(mapped as int, data)
            } else {
                self.chr_rom@
            },
            None => self.chr_rom@,
        }
    }

    /// Write a byte into CHR space through the mapping strategy; reports
    /// whether the cartridge handled the write.
    pub fn writeb_ppu(&mut self, addr: Addr, data: Byte) -> (r: bool)
        ensures
            final(self).chr_rom@ == old(self).spec_chr_after_write(addr, data),
            final(self).prg_rom@ == old(self).prg_rom@,
            final(self).mapper == old(self).mapper,
            final(self).mirror == old(self).mirror,
            r == old(self).spec_write_ppu_handled(addr),
    {
        if let Some(mapped) = self.mapper.map_write_addr_ppu(addr) {
            if (mapped as usize) < self.chr_rom.len() {
                self.chr_rom[mapped as usize] = data;
                return true;
            }
        }
        false
    }

    /// The cartridge's resolved nametable mirroring mode.
    pub fn get_mirror_mode(&self) -> (r: MirrorMode)
        ensures
            r == self.mirror,
    {
        self.mirror
    }
}

} // verus!
