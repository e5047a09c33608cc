//! The picture processor: control/mask/status registers, the cycle/scanline
//! timing state machine, the CPU-visible register interface, and on-demand
//! rendering of palette swatches and pattern tables.

use vstd::prelude::*;

verus! {

use crate::Addr;
use crate::Byte;
use crate::memory::PPUMemory;
use crate::palette::palette_color;
use crate::palette::spec_palette_color;
use crate::sprite::Sprite;
use crate::sprite::grid_dom;
use crate::sprite::sprite_filled;
use crate::sprite::sprite_put;
use crate::sprite::sprite_view;
use crate::sprite::sprite_wf;

/// The flags of the control register (0x2000).
#[derive(Clone, Copy, Debug, PartialEq, Eq)]
pub enum Control {
    /// Bit 0: nametable select, horizontal.
    NametblX,
    /// Bit 1: nametable select, vertical.
    NametblY,
    /// Bit 2: VRAM address increment per data access, 1 or 32.
    IncrementMode,
    /// Bit 3: sprite pattern-table select.
    PatternSpriteAddr,
    /// Bit 4: background pattern-table select.
    PatternBgAddr,
    /// Bit 5: sprite size select.
    SpriteSize,
    /// Bit 6: master/slave select.
    SlaveMode,
    /// Bit 7: raise the non-maskable interrupt at the start of vertical
    /// blank.
    EnableNmi,
}

impl Control {
    /// The single bit this flag occupies.
    pub open spec fn spec_mask(self) -> Byte {
        match self {
            Control::NametblX => 0x01,
            Control::NametblY => 0x02,
            Control::IncrementMode => 0x04,
            Control::PatternSpriteAddr => 0x08,
            Control::PatternBgAddr => 0x10,
            Control::SpriteSize => 0x20,
            Control::SlaveMode => 0x40,
            Control::EnableNmi => 0x80,
        }
    }

    /// The flag's bit mask.
    pub fn mask(self) -> (r: Byte)
        ensures
            r == self.spec_mask(),
    {
        match self {
            Control::NametblX => 0x01,
            Control::NametblY => 0x02,
            Control::IncrementMode => 0x04,
            Control::PatternSpriteAddr => 0x08,
            Control::PatternBgAddr => 0x10,
            Control::SpriteSize => 0x20,
            Control::SlaveMode => 0x40,
            Control::EnableNmi => 0x80,
        }
    }
}

/// The flags of the mask register (0x2001).
#[derive(Clone, Copy, Debug, PartialEq, Eq)]
pub enum Mask {
    /// Bit 0: grayscale rendering.
    Grayscale,
    /// Bit 1: render the background in the leftmost column.
    RenderBgLeft,
    /// Bit 2: render sprites in the leftmost column.
    RenderSpritesLeft,
    /// Bit 3: render the background.
    RenderBg,
    /// Bit 4: render sprites.
    RenderSprites,
    /// Bit 5: emphasize red.
    EnhanceRed,
    /// Bit 6: emphasize green.
    EnhanceGreen,
    /// Bit 7: emphasize blue.
    EnhanceBlue,
}

impl Mask {
    /// The single bit this flag occupies.
    pub open spec fn spec_mask(self) -> Byte {
        match self {
            Mask::Grayscale => 0x01,
            Mask::RenderBgLeft => 0x02,
            Mask::RenderSpritesLeft => 0x04,
            Mask::RenderBg => 0x08,
            Mask::RenderSprites => 0x10,
            Mask::EnhanceRed => 0x20,
            Mask::EnhanceGreen => 0x40,
            Mask::EnhanceBlue => 0x80,
        }
    }

    /// The flag's bit mask.
    pub fn mask(self) -> (r: Byte)
        ensures
            r == self.spec_mask(),
    {
        match self {
            Mask::Grayscale => 0x01,
            Mask::RenderBgLeft => 0x02,
            Mask::RenderSpritesLeft => 0x04,
            Mask::RenderBg => 0x08,
            Mask::RenderSprites => 0x10,
            Mask::EnhanceRed => 0x20,
            Mask::EnhanceGreen => 0x40,
            Mask::EnhanceBlue => 0x80,
        }
    }
}

/// The used flags of the status register (0x2002).
#[derive(Clone, Copy, Debug, PartialEq, Eq)]
pub enum Status {
    /// Bit 5: more than eight sprites on a scanline.
    SpriteOverflow,
    /// Bit 6: sprite zero overlapped the background.
    SpriteZeroHit,
    /// Bit 7: the vertical blank period has started.
    VerticalBlank,
}

impl Status {
    /// The single bit this flag occupies.
    pub open spec fn spec_mask(self) -> Byte {
        match self {
            Status::SpriteOverflow => 0x20,
            Status::SpriteZeroHit => 0x40,
            Status::VerticalBlank => 0x80,
        }
    }

    /// The flag's bit mask.
    pub fn mask(self) -> (r: Byte)
        ensures
            r == self.spec_mask(),
    {
        match self {
            Status::SpriteOverflow => 0x20,
            Status::SpriteZeroHit => 0x40,
            Status::VerticalBlank => 0x80,
        }
    }
}

/// `b` with the bits of `m` set (when `v`) or cleared (when not).
pub open spec fn spec_set_bits(b: Byte, m: Byte, v: bool) -> Byte {
    if v {
        b | m
    } else {
        b & !m
    }
}

/// Whether any bit of `m` is set in `b`.
pub open spec fn spec_get_bits(b: Byte, m: Byte) -> bool {
    b & m != 0
}

/// The picture processor's register file, exposed at 0x2000-0x2007 (and the
/// DMA trigger at 0x4014).
#[derive(Clone, Copy, Debug, PartialEq, Eq)]
pub struct Registers {
    /// Control register (0x2000).
    pub ctrl: Byte,
    /// Mask register (0x2001).
    pub mask: Byte,
    /// Status register (0x2002).
    pub status: Byte,
    /// OAM address (0x2003).
    pub oam_addr: Byte,
    /// OAM data (0x2004).
    pub oam_data: Byte,
    /// Scroll (0x2005).
    pub scroll: Byte,
    /// The 16-bit VRAM address loaded through 0x2006.
    pub addr: Addr,
    /// Data latch (0x2007).
    pub data: Byte,
    /// DMA trigger byte.
    pub dma: Byte,
}

impl Registers {
    /// All registers cleared.
    pub open spec fn spec_new() -> Registers {
        Registers {
            ctrl: 0,
            mask: 0,
            status: 0,
            oam_addr: 0,
            oam_data: 0,
            scroll: 0,
            addr: 0,
            data: 0,
            dma: 0,
        }
    }

    /// A register file with every register cleared.
    pub fn new() -> (r: Registers)
        ensures
            r == Registers::spec_new(),
    {
        Registers {
            ctrl: 0x00,
            mask: 0x00,
            status: 0x00,
            oam_addr: 0x00,
            oam_data: 0x00,
            scroll: 0x00,
            addr: 0x0000,
            data: 0x00,
            dma: 0x00,
        }
    }
}

/// The picture processor: registers, timing counters, interrupt and frame
/// flags, and the render targets.
pub struct PPU {
    /// The register file.
    pub regs: Registers,
    /// Current cycle within the scanline, 0 to 340.
    pub cycle: u16,
    /// Current scanline, 0 to 261.
    pub scanline: u16,
    /// Set when the last scanline wraps: a full frame has elapsed.
    pub frame_ready: bool,
    /// Set at the start of vertical blank when the control register enables
    /// the non-maskable interrupt.
    pub nmi: bool,
    /// The 256 by 240 pixel main canvas.
    pub canvas_main: Sprite,
    /// The two 128 by 128 pixel pattern-table images.
    pub pattern_tables: Vec<Sprite>,
    /// The eight 4 by 1 pixel palette swatches.
    pub palettes: Vec<Sprite>,
    /// Whether the next 0x2006 write carries the low byte (after the high
    /// byte was latched).
    pub addr_latch_set: bool,
    /// The one-cycle read buffer behind 0x2007 reads.
    pub data_buffer: Byte,
}

impl PPU {
    /// Counters in range and render targets of their fixed sizes.
    pub open spec fn wf(&self) -> bool {
        &&& self.cycle <= 340
        &&& self.scanline <= 261
        &&& sprite_wf(self.canvas_main, 256, 240)
        &&& self.pattern_tables@.len() == 2
        &&& forall|i: int| 0 <= i < 2 ==> sprite_wf(#[trigger] self.pattern_tables@[i], 128, 128)
        &&& self.palettes@.len() == 8
        &&& forall|i: int| 0 <= i < 8 ==> sprite_wf(#[trigger] self.palettes@[i], 4, 1)
    }

    /// A freshly powered-on picture processor: cleared registers and
    /// counters, and render targets filled with the first hardware color.
    pub fn new() -> (r: PPU)
        ensures
            r.wf(),
            r.regs == Registers::spec_new(),
            r.cycle == 0,
            r.scanline == 0,
            r.frame_ready == false,
            r.nmi == false,
            r.addr_latch_set == false,
            r.data_buffer == 0,
            sprite_view(r.canvas_main) == Map::new(
                |p: (int, int)| 0 <= p.0 < 256 && 0 <= p.1 < 240,
                |p: (int, int)| spec_palette_color(0),
            ),
            forall|i: int| 0 <= i < 2 ==> sprite_view(#[trigger] r.pattern_tables@[i]) == Map::new(
                |p: (int, int)| 0 <= p.0 < 128 && 0 <= p.1 < 128,
                |p: (int, int)| spec_palette_color(0),
            ),
            forall|i: int| 0 <= i < 8 ==> sprite_view(#[trigger] r.palettes@[i]) == Map::new(
                |p: (int, int)| 0 <= p.0 < 4 && 0 <= p.1 < 1,
                |p: (int, int)| spec_palette_color(0),
            ),
    {
        let c = palette_color(0x00);
        let mut pattern_tables: Vec<Sprite> = Vec::new();
        pattern_tables.push(sprite_filled(128, 128, c));
        pattern_tables.push(sprite_filled(128, 128, c));
        let mut palettes: Vec<Sprite> = Vec::new();
        let mut i: usize = 0;
        while i < 8
            invariant
                i <= 8,
                c == spec_palette_color(0),
                palettes@.len() == i,
                forall|j: int| 0 <= j < i ==> sprite_wf(#[trigger] palettes@[j], 4, 1),
                forall|j: int| 0 <= j < i ==> sprite_view(#[trigger] palettes@[j]) == Map::new(
                    |p: (int, int)| 0 <= p.0 < 4 && 0 <= p.1 < 1,
                    |p: (int, int)| spec_palette_color(0),
                ),
            decreases 8 - i,
        {
            palettes.push(sprite_filled(4, 1, c));
            proof {
                assert(sprite_view(palettes@[i as int]) =~= Map::new(
                    |p: (int, int)| 0 <= p.0 < 4 && 0 <= p.1 < 1,
                    |p: (int, int)| spec_palette_color(0),
                ));
            }
            i += 1;
        }
        let canvas_main = sprite_filled(256, 240, c);
        proof {
            assert(sprite_view(canvas_main) =~= Map::new(
                |p: (int, int)| 0 <= p.0 < 256 && 0 <= p.1 < 240,
                |p: (int, int)| spec_palette_color(0),
            ));
            assert forall|i: int| 0 <= i < 2 implies sprite_view(#[trigger] pattern_tables@[i])
                == Map::new(
                |p: (int, int)| 0 <= p.0 < 128 && 0 <= p.1 < 128,
                |p: (int, int)| spec_palette_color(0),
            ) by {
                assert(sprite_view(pattern_tables@[i]) =~= Map::new(
                    |p: (int, int)| 0 <= p.0 < 128 && 0 <= p.1 < 128,
                    |p: (int, int)| spec_palette_color(0),
                ));
            }
        }
        PPU {
            regs: Registers::new(),
            cycle: 0,
            scanline: 0,
            frame_ready: false,
            nmi: false,
            canvas_main,
            pattern_tables,
            palettes,
            addr_latch_set: false,
            data_buffer: 0,
        }
    }

    /// Reinitialize the register file only; timing counters, internal latch
    /// state and render targets are preserved.
    pub fn reset(&mut self)
        ensures
            *final(self) == (PPU { regs: Registers::spec_new(), ..*old(self) }),
    {
        self.regs = Registers::new();
    }

    /// Set or clear one status flag, leaving every other bit of the register
    /// file untouched.
    pub fn set_status(&mut self, flag: Status, val: bool)
        ensures
            *final(self) == (PPU {
                regs: Registers {
                    status: spec_set_bits(old(self).regs.status, flag.spec_mask(), val),
                    ..old(self).regs
                },
                ..*old(self)
            }),
    {
        if val {
            self.regs.status = self.regs.status | flag.mask();
        } else {
            self.regs.status = self.regs.status & !flag.mask();
        }
    }

    /// Whether one status flag is set.
    pub fn get_status(&self, flag: Status) -> (r: bool)
        ensures
            r == spec_get_bits(self.regs.status, flag.spec_mask()),
    {
        self.regs.status & flag.mask() != 0
    }

    /// Set or clear one control flag, leaving every other bit of the
    /// register file untouched.
    pub fn set_control(&mut self, flag: Control, val: bool)
        ensures
            *final(self) == (PPU {
                regs: Registers {
                    ctrl: spec_set_bits(old(self).regs.ctrl, flag.spec_mask(), val),
                    ..old(self).regs
                },
                ..*old(self)
            }),
    {
        if val {
            self.regs.ctrl = self.regs.ctrl | flag.mask();
        } else {
            self.regs.ctrl = self.regs.ctrl & !flag.mask();
        }
    }

    /// Whether one control flag is set.
    pub fn get_control(&self, flag: Control) -> (r: bool)
        ensures
            r == spec_get_bits(self.regs.ctrl, flag.spec_mask()),
    {
        self.regs.ctrl & flag.mask() != 0
    }
}

/// The (cycle, scanline) pair after one clock tick: cycle 340 wraps to 0 and
/// advances the scanline; scanline 261 wraps to 0.
pub open spec fn spec_next_counters(cycle: u16, scanline: u16) -> (u16, u16) {
    if cycle == 340 {
        if scanline == 261 {
            (0u16, 0u16)
        } else {
            (0u16, (scanline + 1) as u16)
        }
    } else {
        ((cycle + 1) as u16, scanline)
    }
}

/// The picture processor after one clock tick: counters advance; the frame
/// flag is raised when the last scanline wraps; the vertical-blank status
/// flag is set exactly at (scanline 241, cycle 1) - raising the NMI request
/// when enabled - and cleared exactly at (scanline 261, cycle 1).
pub open spec fn spec_clock(p: PPU) -> PPU {
    let nc = spec_next_counters(p.cycle, p.scanline);
    let frame_ready = if p.cycle == 340 && p.scanline == 261 {
        true
    } else {
        p.frame_ready
    };
    let status = if nc.1 == 241 && nc.0 == 1 {
        spec_set_bits(p.regs.status, Status::VerticalBlank.spec_mask(), true)
    } else if nc.1 == 261 && nc.0 == 1 {
        spec_set_bits(p.regs.status, Status::VerticalBlank.spec_mask(), false)
    } else {
        p.regs.status
    };
    let nmi = if nc.1 == 241 && nc.0 == 1 && spec_get_bits(
        p.regs.ctrl,
        Control::EnableNmi.spec_mask(),
    ) {
        true
    } else {
        p.nmi
    };
    PPU {
        cycle: nc.0,
        scanline: nc.1,
        frame_ready,
        nmi,
        regs: Registers { status, ..p.regs },
        ..p
    }
}

impl PPU {
    /// Advance the timing state machine by one cycle. The memory handle is
    /// unused: per-cycle fetches are not simulated, rendering is computed on
    /// demand.
    pub fn clock<T: PPUMemory>(&mut self, _mem: &mut T)
        requires
            old(self).wf(),
        ensures
            final(self).wf(),
            *final(self) == spec_clock(*old(self)),
            *final(_mem) == *old(_mem),
    {
        if self.cycle == 340 {
            self.cycle = 0;
            if self.scanline == 261 {
                self.scanline = 0;
                self.frame_ready = true;
            } else {
                self.scanline = self.scanline + 1;
            }
        } else {
            self.cycle = self.cycle + 1;
        }
        if self.scanline == 241 && self.cycle == 1 {
            self.set_status(Status::VerticalBlank, true);
            if self.get_control(Control::EnableNmi) {
                self.nmi = true;
            }
        } else if self.scanline == 261 && self.cycle == 1 {
            self.set_status(Status::VerticalBlank, false);
        }
    }
}

/// Setting or clearing bits under one mask leaves every bit outside that
/// mask unchanged.
proof fn lemma_set_bits_other(b: Byte, m1: Byte, m2: Byte, v: bool)
    by (bit_vector)
    requires
        m1 & m2 == 0,
    ensures
        spec_get_bits(spec_set_bits(b, m1, v), m2) == spec_get_bits(b, m2),
{
}

/// Toggling one status flag leaves each other status flag untouched (and
/// the ensures of `set_status` shows it touches no other register at all).
pub proof fn lemma_status_flag_independent(s: Byte, f: Status, g: Status, v: bool)
    requires
        f != g,
    ensures
        spec_get_bits(spec_set_bits(s, f.spec_mask(), v), g.spec_mask()) == spec_get_bits(
            s,
            g.spec_mask(),
        ),
{
    let m1 = f.spec_mask();
    let m2 = g.spec_mask();
    assert(forall|a: Byte, b: Byte|
        (a == 0x20 || a == 0x40 || a == 0x80) && (b == 0x20 || b == 0x40 || b == 0x80) && a != b
            ==> a & b == 0) by (bit_vector);
    lemma_set_bits_other(s, m1, m2, v);
}

/// Toggling one control flag leaves each other control flag untouched (and
/// the ensures of `set_control` shows it touches no other register at all).
pub proof fn lemma_control_flag_independent(s: Byte, f: Control, g: Control, v: bool)
    requires
        f != g,
    ensures
        spec_get_bits(spec_set_bits(s, f.spec_mask(), v), g.spec_mask()) == spec_get_bits(
            s,
            g.spec_mask(),
        ),
{
    let m1 = f.spec_mask();
    let m2 = g.spec_mask();
    assert(forall|a: Byte, b: Byte|
        (a == 0x01 || a == 0x02 || a == 0x04 || a == 0x08 || a == 0x10 || a == 0x20 || a == 0x40
            || a == 0x80) && (b == 0x01 || b == 0x02 || b == 0x04 || b == 0x08 || b == 0x10 || b
            == 0x20 || b == 0x40 || b == 0x80) && a != b ==> a & b == 0) by (bit_vector);
    lemma_set_bits_other(s, m1, m2, v);
}

/// One clock tick sets the vertical-blank flag exactly when it lands on
/// (scanline 241, cycle 1) and clears it exactly when it lands on
/// (scanline 261, cycle 1); at the former point it raises the NMI request
/// exactly when the control register enables it, and at every other point
/// it leaves the status byte and the NMI request as they were.
pub proof fn lemma_vblank_timing(p: PPU)
    requires
        p.wf(),
    ensures
        ({
            let q = spec_clock(p);
            let vblank = Status::VerticalBlank.spec_mask();
            &&& (q.scanline == 241 && q.cycle == 1) ==> spec_get_bits(q.regs.status, vblank)
            &&& (q.scanline == 261 && q.cycle == 1) ==> !spec_get_bits(q.regs.status, vblank)
            &&& !((q.scanline == 241 || q.scanline == 261) && q.cycle == 1) ==> q.regs.status
                == p.regs.status && q.nmi == p.nmi
            &&& (q.scanline == 241 && q.cycle == 1) ==> q.nmi == (p.nmi || spec_get_bits(
                p.regs.ctrl,
                Control::EnableNmi.spec_mask(),
            ))
            &&& (q.scanline == 261 && q.cycle == 1) ==> q.nmi == p.nmi
        }),
{
    assert(forall|s: Byte| (s | 0x80) & 0x80 != 0) by (bit_vector);
    assert(forall|s: Byte| (s & !0x80) & 0x80 == 0) by (bit_vector);
}

/// The byte a register read at `addr` returns: the status byte at 0x2002,
/// the (possibly delayed) data byte at 0x2007, and 0 everywhere else.
pub open spec fn spec_reg_read_value(p: PPU, view: Seq<Byte>, addr: Addr) -> Byte {
    if addr == 0x2002 {
        p.regs.status
    } else if addr == 0x2007 {
        if p.regs.addr >= 0x3f00 {
            view[(p.regs.addr & 0x3fff) as int]
        } else {
            p.data_buffer
        }
    } else {
        0
    }
}

/// The picture processor after a register read at `addr`: reading 0x2002
/// clears the vertical-blank flag and resets the address latch; reading
/// 0x2007 refills the one-cycle buffer from the current VRAM address.
pub open spec fn spec_reg_read_next(p: PPU, view: Seq<Byte>, addr: Addr) -> PPU {
    if addr == 0x2002 {
        PPU {
            regs: Registers {
                status: spec_set_bits(p.regs.status, Status::VerticalBlank.spec_mask(), false),
                ..p.regs
            },
            addr_latch_set: false,
            ..p
        }
    } else if addr == 0x2007 {
        PPU { data_buffer: view[(p.regs.addr & 0x3fff) as int], ..p }
    } else {
        p
    }
}

/// The VRAM address increment a data access applies: 32 in vertical mode,
/// 1 otherwise.
pub open spec fn spec_addr_increment(ctrl: Byte) -> Addr {
    if spec_get_bits(ctrl, Control::IncrementMode.spec_mask()) {
        32
    } else {
        1
    }
}

/// The picture processor after a register write of `data` at `addr`:
/// 0x2000/0x2001 replace the control/mask register wholesale; 0x2006 loads
/// the high then the low byte of the VRAM address, toggling the latch;
/// 0x2007 auto-increments the VRAM address (wrapping); everything else is
/// discarded.
pub open spec fn spec_reg_write_next(p: PPU, addr: Addr, data: Byte) -> PPU {
    if addr == 0x2000 {
        PPU { regs: Registers { ctrl: data, ..p.regs }, ..p }
    } else if addr == 0x2001 {
        PPU { regs: Registers { mask: data, ..p.regs }, ..p }
    } else if addr == 0x2006 {
        let a = if !p.addr_latch_set {
            (p.regs.addr & 0x00ff) | ((data as Addr) << 8)
        } else {
            (p.regs.addr & 0xff00) | (data as Addr)
        };
        PPU {
            regs: Registers { addr: a, ..p.regs },
            addr_latch_set: !p.addr_latch_set,
            ..p
        }
    } else if addr == 0x2007 {
        PPU {
            regs: Registers {
                addr: p.regs.addr.wrapping_add(spec_addr_increment(p.regs.ctrl)),
                ..p.regs
            },
            ..p
        }
    } else {
        p
    }
}

impl PPU {
    /// Read one register through the main bus. Only the status register
    /// (0x2002) and the data register (0x2007) can actually be read; every
    /// other address returns 0. A 0x2007 read returns the byte buffered by
    /// the previous read and refills the buffer from the current VRAM
    /// address, except in palette space (0x3F00 and up), where the fresh
    /// byte is returned immediately.
    pub fn readb<T: PPUMemory>(&mut self, mem: &T, addr: Addr) -> (r: Byte)
        requires
            old(self).wf(),
            mem.ppu_inv(),
        ensures
            final(self).wf(),
            r == spec_reg_read_value(*old(self), mem.ppu_view(), addr),
            *final(self) == spec_reg_read_next(*old(self), mem.ppu_view(), addr),
    {
        match addr {
            0x2002 => {
                let status = self.regs.status;
                self.set_status(Status::VerticalBlank, false);
                self.addr_latch_set = false;
                status
            },
            0x2004 => 0x00,
            0x2007 => {
                let data = self.data_buffer;
                let fresh = mem.readb_ppu(self.regs.addr);
                self.data_buffer = fresh;
                if self.regs.addr >= 0x3f00 {
                    fresh
                } else {
                    data
                }
            },
            _ => 0x00,
        }
    }

    /// Write one register through the main bus. Only a 0x2007 write stores
    /// through to PPU-side memory, at the current VRAM address.
    pub fn writeb<T: PPUMemory>(&mut self, mem: &mut T, addr: Addr, data: Byte)
        requires
            old(self).wf(),
            old(mem).ppu_inv(),
        ensures
            final(self).wf(),
            final(mem).ppu_inv(),
            *final(self) == spec_reg_write_next(*old(self), addr, data),
            final(mem).ppu_view() == if addr == 0x2007 {
                old(mem).ppu_view().update((old(self).regs.addr & 0x3fff) as int, data)
            } else {
                old(mem).ppu_view()
            },
    {
        match addr {
            0x2000 => {
                self.regs.ctrl = data;
            },
            0x2001 => {
                self.regs.mask = data;
            },
            0x2006 => {
                if !self.addr_latch_set {
                    self.regs.addr = (self.regs.addr & 0x00ff) | ((data as Addr) << 8);
                } else {
                    self.regs.addr = (self.regs.addr & 0xff00) | (data as Addr);
                }
                self.addr_latch_set = !self.addr_latch_set;
            },
            0x2007 => {
                mem.writeb_ppu(self.regs.addr, data);
                let inc: Addr = if self.get_control(Control::IncrementMode) {
                    32
                } else {
                    1
                };
                self.regs.addr = self.regs.addr.wrapping_add(inc);
            },
            _ => {},
        }
    }
}

/// Addresses below the mirror boundary pass through the 14-bit mask
/// unchanged.
proof fn lemma_small_addr_mask(a: Addr)
    by (bit_vector)
    requires
        a < 0x4000,
    ensures
        a & 0x3fff == a,
{
}

/// Shifting right one more step.
proof fn lemma_shr_step(b: Byte, j: u8)
    by (bit_vector)
    requires
        j < 8,
    ensures
        (b >> j) >> 1 == b >> ((j + 1) as u8),
{
}

/// The color the palette memory selects for `pixel` of palette `palette_id`:
/// the byte at 0x3F00 + palette_id*4 + pixel, masked to 6 bits, resolved
/// through the hardware color table.
pub open spec fn spec_color_from_ram(view: Seq<Byte>, palette_id: Byte, pixel: Byte) -> (
    u8,
    u8,
    u8,
    u8,
) {
    let idx_addr = (0x3f00 + (palette_id as Addr) * 4 + pixel as Addr) as Addr;
    spec_palette_color(view[(idx_addr & 0x3fff) as int] & 0x3f)
}

/// The color of the pattern-table pixel of tile column `tx`, tile row `ty`,
/// pixel row `row` and bit position `col` (bit 0 is the rightmost pixel of
/// the row): one bit from each of the tile's two 8-byte bitplanes combines
/// into a 2-bit value, resolved through the palette memory.
pub open spec fn spec_tile_pixel(
    view: Seq<Byte>,
    index: int,
    palette_id: Byte,
    tx: int,
    ty: int,
    row: int,
    col: int,
) -> (u8, u8, u8, u8) {
    let base = index * 0x1000 + ty * 256 + tx * 16 + row;
    let lsb = view[base];
    let msb = view[base + 8];
    let pv = ((lsb >> (col as u8)) & 1) + ((msb >> (col as u8)) & 1);
    spec_color_from_ram(view, palette_id, pv as Byte)
}

/// Whether the tile pixel (tx, ty, rw, cl) has been visited when the
/// rendering loops stand at tile column `x`, tile row `y`, pixel row `r`,
/// bit `c` (lexicographic progress).
spec fn tile_visited(tx: int, ty: int, rw: int, cl: int, x: int, y: int, r: int, c: int) -> bool {
    ||| tx < x
    ||| (tx == x && ty < y)
    ||| (tx == x && ty == y && rw < r)
    ||| (tx == x && ty == y && rw == r && cl < c)
}

/// Rendering progress on pattern table `index`: everything but the table is
/// untouched, and every visited tile pixel holds its rendered color.
spec fn pattern_progress(
    cur: PPU,
    orig: PPU,
    view: Seq<Byte>,
    index: int,
    palette_id: Byte,
    x: int,
    y: int,
    r: int,
    c: int,
) -> bool {
    &&& cur.wf()
    &&& cur == (PPU { pattern_tables: cur.pattern_tables, ..orig })
    &&& cur.pattern_tables@.len() == 2
    &&& cur.pattern_tables@[1 - index] == orig.pattern_tables@[1 - index]
    &&& sprite_wf(cur.pattern_tables@[index], 128, 128)
    &&& forall|tx: int, ty: int, rw: int, cl: int|
        0 <= tx < 16 && 0 <= ty < 16 && 0 <= rw < 8 && 0 <= cl < 8 && tile_visited(
            tx,
            ty,
            rw,
            cl,
            x,
            y,
            r,
            c,
        ) ==> sprite_view(cur.pattern_tables@[index])[(tx * 8 + 7 - cl, ty * 8 + rw)]
            == #[trigger] spec_tile_pixel(view, index, palette_id, tx, ty, rw, cl)
}

impl PPU {
    /// Resolve one pixel of one palette through the palette memory and the
    /// hardware color table.
    fn get_color_from_ram<T: PPUMemory>(&self, mem: &T, palette_id: Byte, pixel: Byte) -> (c: (
        u8,
        u8,
        u8,
        u8,
    ))
        requires
            mem.ppu_inv(),
        ensures
            c == spec_color_from_ram(mem.ppu_view(), palette_id, pixel),
    {
        let palette_idx_addr: Addr = 0x3f00 + (palette_id as Addr) * 4 + (pixel as Addr);
        let palette_idx = mem.readb_ppu(palette_idx_addr) & 0x3f;
        palette_color(palette_idx)
    }

    /// Rebuild one 4-color palette swatch from the palette memory and return
    /// it. Pull-based: recomputed on demand from current memory contents.
    pub fn get_palette<T: PPUMemory>(&mut self, mem: &T, palette_id: Byte) -> (r: &Sprite)
        requires
            old(self).wf(),
            mem.ppu_inv(),
            palette_id < 8,
        ensures
            final(self).wf(),
            *final(self) == (PPU { palettes: final(self).palettes, ..*old(self) }),
            final(self).palettes@.len() == 8,
            forall|j: int|
                0 <= j < 8 && j != palette_id ==> final(self).palettes@[j] == old(
                    self,
                ).palettes@[j],
            *r == final(self).palettes@[palette_id as int],
            sprite_wf(final(self).palettes@[palette_id as int], 4, 1),
            forall|k: int|
                0 <= k < 4 ==> #[trigger] sprite_view(final(self).palettes@[palette_id as int])[(k, 0)] == spec_color_from_ram(mem.ppu_view(), palette_id, k as u8),
    {
        let mut i: u32 = 0;
        while i < 4
            invariant
                mem.ppu_inv(),
                palette_id < 8,
                i <= 4,
                self.wf(),
                *self == (PPU { palettes: self.palettes, ..*old(self) }),
                self.palettes@.len() == 8,
                forall|j: int|
                    0 <= j < 8 && j != palette_id ==> self.palettes@[j] == old(self).palettes@[j],
                sprite_wf(self.palettes@[palette_id as int], 4, 1),
                forall|k: int|
                    0 <= k < i ==> #[trigger] sprite_view(self.palettes@[palette_id as int])[(k, 0)] == spec_color_from_ram(mem.ppu_view(), palette_id, k as u8),
            decreases 4 - i,
        {
            let c = self.get_color_from_ram(mem, palette_id, i as u8);
            sprite_put(&mut self.palettes[palette_id as usize], i, 0, c);
            proof {
                assert(grid_dom(4, 1).insert((i as int, 0int)) =~= grid_dom(4, 1));
            }
            i += 1;
        }
        &self.palettes[palette_id as usize]
    }

    /// Rebuild one of the two 128 by 128 pattern-table images from the
    /// pattern memory: 16 by 16 tiles of 8 by 8 pixels, each tile read as
    /// two 8-byte bitplanes, colored through `palette_id`. Pull-based:
    /// recomputed on demand from current memory contents.
    pub fn get_pattern_table<T: PPUMemory>(&mut self, mem: &T, index: usize, palette_id: Byte) -> (
        r: &Sprite)
        requires
            old(self).wf(),
            mem.ppu_inv(),
            index < 2,
        ensures
            final(self).wf(),
            *final(self) == (PPU { pattern_tables: final(self).pattern_tables, ..*old(self) }),
            final(self).pattern_tables@.len() == 2,
            final(self).pattern_tables@[1 - index as int] == old(self).pattern_tables@[1 - index
                as int],
            *r == final(self).pattern_tables@[index as int],
            sprite_wf(final(self).pattern_tables@[index as int], 128, 128),
            forall|tx: int, ty: int, rw: int, cl: int|
                0 <= tx < 16 && 0 <= ty < 16 && 0 <= rw < 8 && 0 <= cl < 8 ==> sprite_view(
                    final(self).pattern_tables@[index as int],
                )[(tx * 8 + 7 - cl, ty * 8 + rw)] == #[trigger] spec_tile_pixel(
                    mem.ppu_view(),
                    index as int,
                    palette_id,
                    tx,
                    ty,
                    rw,
                    cl,
                ),
    {
        proof {
            mem.ppu_view_len();
        }
        let ghost view = mem.ppu_view();
        let mut x: u32 = 0;
        while x < 16
            invariant
                mem.ppu_inv(),
                view == mem.ppu_view(),
                view.len() == 0x4000,
                index < 2,
                x <= 16,
                pattern_progress(
                    *self,
                    *old(self),
                    view,
                    index as int,
                    palette_id,
                    x as int,
                    0,
                    0,
                    0,
                ),
            decreases 16 - x,
        {
            let mut y: u32 = 0;
            while y < 16
                invariant
                    mem.ppu_inv(),
                    view == mem.ppu_view(),
                    view.len() == 0x4000,
                    index < 2,
                    x < 16,
                    y <= 16,
                    pattern_progress(
                        *self,
                        *old(self),
                        view,
                        index as int,
                        palette_id,
                        x as int,
                        y as int,
                        0,
                        0,
                    ),
                decreases 16 - y,
            {
                let mut row: u32 = 0;
                while row < 8
                    invariant
                        mem.ppu_inv(),
                        view == mem.ppu_view(),
                        view.len() == 0x4000,
                        index < 2,
                        x < 16,
                        y < 16,
                        row <= 8,
                        pattern_progress(
                            *self,
                            *old(self),
                            view,
                            index as int,
                            palette_id,
                            x as int,
                            y as int,
                            row as int,
                            0,
                        ),
                    decreases 8 - row,
                {
                    let tile_addr: Addr = (index as Addr) * 0x1000 + (y as Addr) * 256 + (x
                        as Addr) * 16 + (row as Addr);
                    proof {
                        lemma_small_addr_mask(tile_addr);
                        lemma_small_addr_mask((tile_addr + 8) as Addr);
                    }
                    let mut tile_lsb: Byte = mem.readb_ppu(tile_addr);
                    let mut tile_msb: Byte = mem.readb_ppu(tile_addr + 8);
                    let ghost lsb0 = tile_lsb;
                    let ghost msb0 = tile_msb;
                    let ghost base = index as int * 0x1000 + y as int * 256 + x as int * 16
                        + row as int;
                    proof {
                        assert(lsb0 >> 0u8 == lsb0) by (bit_vector);
                        assert(msb0 >> 0u8 == msb0) by (bit_vector);
                    }
                    let mut col: u32 = 0;
                    while col < 8
                        invariant
                            mem.ppu_inv(),
                            view == mem.ppu_view(),
                            view.len() == 0x4000,
                            index < 2,
                            x < 16,
                            y < 16,
                            row < 8,
                            col <= 8,
                            base == index as int * 0x1000 + y as int * 256 + x as int * 16
                                + row as int,
                            lsb0 == view[base],
                            msb0 == view[base + 8],
                            tile_lsb == lsb0 >> ((col as u8)),
                            tile_msb == msb0 >> ((col as u8)),
                            pattern_progress(
                                *self,
                                *old(self),
                                view,
                                index as int,
                                palette_id,
                                x as int,
                                y as int,
                                row as int,
                                col as int,
                            ),
                        decreases 8 - col,
                    {
                        proof {
                            assert(tile_lsb & 0x01 < 2) by (bit_vector);
                            assert(tile_msb & 0x01 < 2) by (bit_vector);
                        }
                        let pixel: Byte = (tile_lsb & 0x01) + (tile_msb & 0x01);
                        let c = self.get_color_from_ram(mem, palette_id, pixel);
                        let px: u32 = x * 8 + (7 - col);
                        let py: u32 = y * 8 + row;
                        sprite_put(&mut self.pattern_tables[index], px, py, c);
                        proof {
                            assert(grid_dom(128, 128).insert((px as int, py as int)) =~= grid_dom(
                                128,
                                128,
                            ));
                            assert(pixel == ((lsb0 >> (col as u8)) & 1) + ((msb0 >> (col as u8))
                                & 1));
                            assert(c == spec_tile_pixel(
                                view,
                                index as int,
                                palette_id,
                                x as int,
                                y as int,
                                row as int,
                                col as int,
                            ));
                            lemma_shr_step(lsb0, col as u8);
                            lemma_shr_step(msb0, col as u8);
                        }
                        tile_lsb = tile_lsb >> 1;
                        tile_msb = tile_msb >> 1;
                        col = col + 1;
                    }
                    row = row + 1;
                }
                y = y + 1;
            }
            x = x + 1;
        }
        &self.pattern_tables[index]
    }
}

} // verus!
