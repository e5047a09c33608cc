//! Core of a 6502-era console emulator: instruction decoding, cartridge ROM
//! parsing with an address-mapping strategy, a memory-mapped bus, and the
//! timing/register state machine of the picture processor.

use vstd::prelude::*;

pub mod cartridge;
pub mod instructions;
pub mod memory;
pub mod palette;
pub mod ppu;
pub mod sprite;

verus! {

/// One byte on the data bus.
pub type Byte = u8;

/// A 16-bit address on either the CPU-side or the PPU-side bus.
pub type Addr = u16;

/// A 16-bit little-endian word assembled from two bus bytes.
pub type Word = u16;

/// A vector of `n` zero bytes.
pub(crate) fn zeroed(n: usize) -> (r: Vec<Byte>)
    ensures
        r@ == Seq::new(n as nat, |i: int| 0u8),
{
    let mut r: Vec<Byte> = Vec::new();
    let mut i: usize = 0;
    while i < n
        invariant
            i <= n,
            r@ == Seq::new(i as nat, |j: int| 0u8),
        decreases n - i,
    {
        r.push(0);
        proof {
            assert(Seq::new(i as nat + 1, |j: int| 0u8) =~= Seq::new(i as nat, |j: int| 0u8).push(
                0u8,
            ));
        }
        i += 1;
    }
    r
}

} // verus!

