//! The fixed 64-entry hardware color table of the picture processor: each
//! 6-bit color index resolves to one RGBA color.

use vstd::prelude::*;

verus! {

/// The color each 6-bit index denotes; indices above 63 resolve like the
/// last table entry (black), though callers mask to 6 bits first.
pub open spec fn spec_palette_color(idx: u8) -> (u8, u8, u8, u8) {
    match idx {
        0x00 => (84, 84, 84, 255),
        0x01 => (0, 30, 116, 255),
        0x02 => (8, 16, 144, 255),
        0x03 => (48, 0, 136, 255),
        0x04 => (68, 0, 100, 255),
        0x05 => (92, 0, 48, 255),
        0x06 => (84, 4, 0, 255),
        0x07 => (60, 24, 0, 255),
        0x08 => (32, 42, 0, 255),
        0x09 => (8, 58, 0, 255),
        0x0a => (0, 64, 0, 255),
        0x0b => (0, 60, 0, 255),
        0x0c => (0, 50, 60, 255),
        0x0d => (0, 0, 0, 255),
        0x0e => (0, 0, 0, 255),
        0x0f => (0, 0, 0, 255),
        0x10 => (152, 150, 152, 255),
        0x11 => (8, 76, 196, 255),
        0x12 => (48, 50, 236, 255),
        0x13 => (92, 30, 228, 255),
        0x14 => (136, 20, 176, 255),
        0x15 => (160, 20, 100, 255),
        0x16 => (152, 34, 32, 255),
        0x17 => (120, 60, 0, 255),
        0x18 => (84, 90, 0, 255),
        0x19 => (40, 114, 0, 255),
        0x1a => (8, 124, 0, 255),
        0x1b => (0, 118, 40, 255),
        0x1c => (0, 102, 120, 255),
        0x1d => (0, 0, 0, 255),
        0x1e => (0, 0, 0, 255),
        0x1f => (0, 0, 0, 255),
        0x20 => (236, 238, 236, 255),
        0x21 => (76, 154, 236, 255),
        0x22 => (120, 124, 236, 255),
        0x23 => (176, 98, 236, 255),
        0x24 => (228, 84, 236, 255),
        0x25 => (236, 88, 180, 255),
        0x26 => (236, 106, 100, 255),
        0x27 => (212, 136, 32, 255),
        0x28 => (160, 170, 0, 255),
        0x29 => (116, 196, 0, 255),
        0x2a => (76, 208, 32, 255),
        0x2b => (56, 204, 108, 255),
        0x2c => (56, 180, 204, 255),
        0x2d => (60, 60, 60, 255),
        0x2e => (0, 0, 0, 255),
        0x2f => (0, 0, 0, 255),
        0x30 => (236, 238, 236, 255),
        0x31 => (168, 204, 236, 255),
        0x32 => (188, 188, 236, 255),
        0x33 => (212, 178, 236, 255),
        0x34 => (236, 174, 236, 255),
        0x35 => (236, 174, 212, 255),
        0x36 => (236, 180, 176, 255),
        0x37 => (228, 196, 144, 255),
        0x38 => (204, 210, 120, 255),
        0x39 => (180, 222, 120, 255),
        0x3a => (168, 226, 144, 255),
        0x3b => (152, 226, 180, 255),
        0x3c => (160, 214, 228, 255),
        0x3d => (160, 162, 160, 255),
        0x3e => (0, 0, 0, 255),
        _ => (0, 0, 0, 255),
    }
}

/// Resolve a 6-bit color index through the hardware color table.
pub fn palette_color(idx: u8) -> (c: (u8, u8, u8, u8))
    ensures
        c == spec_palette_color(idx),
{
    match idx {
        0x00 => (84, 84, 84, 255),
        0x01 => (0, 30, 116, 255),
        0x02 => (8, 16, 144, 255),
        0x03 => (48, 0, 136, 255),
        0x04 => (68, 0, 100, 255),
        0x05 => (92, 0, 48, 255),
        0x06 => (84, 4, 0, 255),
        0x07 => (60, 24, 0, 255),
        0x08 => (32, 42, 0, 255),
        0x09 => (8, 58, 0, 255),
        0x0a => (0, 64, 0, 255),
        0x0b => (0, 60, 0, 255),
        0x0c => (0, 50, 60, 255),
        0x0d => (0, 0, 0, 255),
        0x0e => (0, 0, 0, 255),
        0x0f => (0, 0, 0, 255),
        0x10 => (152, 150, 152, 255),
        0x11 => (8, 76, 196, 255),
        0x12 => (48, 50, 236, 255),
        0x13 => (92, 30, 228, 255),
        0x14 => (136, 20, 176, 255),
        0x15 => (160, 20, 100, 255),
        0x16 => (152, 34, 32, 255),
        0x17 => (120, 60, 0, 255),
        0x18 => (84, 90, 0, 255),
        0x19 => (40, 114, 0, 255),
        0x1a => (8, 124, 0, 255),
        0x1b => (0, 118, 40, 255),
        0x1c => (0, 102, 120, 255),
        0x1d => (0, 0, 0, 255),
        0x1e => (0, 0, 0, 255),
        0x1f => (0, 0, 0, 255),
        0x20 => (236, 238, 236, 255),
        0x21 => (76, 154, 236, 255),
        0x22 => (120, 124, 236, 255),
        0x23 => (176, 98, 236, 255),
        0x24 => (228, 84, 236, 255),
        0x25 => (236, 88, 180, 255),
        0x26 => (236, 106, 100, 255),
        0x27 => (212, 136, 32, 255),
        0x28 => (160, 170, 0, 255),
        0x29 => (116, 196, 0, 255),
        0x2a => (76, 208, 32, 255),
        0x2b => (56, 204, 108, 255),
        0x2c => (56, 180, 204, 255),
        0x2d => (60, 60, 60, 255),
        0x2e => (0, 0, 0, 255),
        0x2f => (0, 0, 0, 255),
        0x30 => (236, 238, 236, 255),
        0x31 => (168, 204, 236, 255),
        0x32 => (188, 188, 236, 255),
        0x33 => (212, 178, 236, 255),
        0x34 => (236, 174, 236, 255),
        0x35 => (236, 174, 212, 255),
        0x36 => (236, 180, 176, 255),
        0x37 => (228, 196, 144, 255),
        0x38 => (204, 210, 120, 255),
        0x39 => (180, 222, 120, 255),
        0x3a => (168, 226, 144, 255),
        0x3b => (152, 226, 180, 255),
        0x3c => (160, 214, 228, 255),
        0x3d => (160, 162, 160, 255),
        0x3e => (0, 0, 0, 255),
        _ => (0, 0, 0, 255),
    }
}

} // verus!
