//! Render targets: RGBA pixel buffers backed by `image::ImageBuffer`.
//!
//! The buffer is held opaquely; its contents are modelled by the
//! uninterpreted functions [`sprite_view`], [`sprite_width`] and
//! [`sprite_height`], and every access goes through a small trusted wrapper
//! around one `image` method. A pixel is carried in contracts as its four
//! channel values (red, green, blue, alpha).

use vstd::prelude::*;

verus! {

/// An owned RGBA image: the main canvas, a pattern-table image or a palette
/// swatch.
#[verifier::external_body]
pub struct Sprite {
    img: image::ImageBuffer<image::Rgba<u8>, Vec<u8>>,
}

/// The pixels a sprite holds, as (red, green, blue, alpha) channel values
/// keyed by (x, y) position.
pub uninterp spec fn sprite_view(s: Sprite) -> Map<(int, int), (u8, u8, u8, u8)>;

/// The width of a sprite in pixels.
pub uninterp spec fn sprite_width(s: Sprite) -> u32;

/// The height of a sprite in pixels.
pub uninterp spec fn sprite_height(s: Sprite) -> u32;

/// The positions of a `w` by `h` pixel grid.
pub open spec fn grid_dom(w: int, h: int) -> Set<(int, int)> {
    Set::new(|p: (int, int)| 0 <= p.0 < w && 0 <= p.1 < h)
}

/// A sprite of exactly `w` by `h` pixels, one stored value per position.
pub open spec fn sprite_wf(s: Sprite, w: int, h: int) -> bool {
    &&& sprite_width(s) == w
    &&& sprite_height(s) == h
    &&& sprite_view(s).dom() == grid_dom(w, h)
}

/// Relies on `image::ImageBuffer::from_pixel`: builds a `w` by `h` buffer with
/// every pixel set to the given value.
#[verifier::external_body]
pub fn sprite_filled(w: u32, h: u32, c: (u8, u8, u8, u8)) -> (s: Sprite)
    requires
        w <= 4096,
        h <= 4096,
    ensures
        sprite_wf(s, w as int, h as int),
        sprite_view(s) == Map::new(
            |p: (int, int)| 0 <= p.0 < w && 0 <= p.1 < h,
            |p: (int, int)| c,
        ),
{
    Sprite { img: image::ImageBuffer::from_pixel(w, h, image::Rgba([c.0, c.1, c.2, c.3])) }
}

/// Relies on `image::ImageBuffer::put_pixel`: replaces the pixel at (x, y),
/// which must be in bounds, and leaves the rest of the buffer unchanged.
#[verifier::external_body]
pub fn sprite_put(s: &mut Sprite, x: u32, y: u32, c: (u8, u8, u8, u8))
    requires
        x < sprite_width(*old(s)),
        y < sprite_height(*old(s)),
    ensures
        sprite_width(*final(s)) == sprite_width(*old(s)),
        sprite_height(*final(s)) == sprite_height(*old(s)),
        sprite_view(*final(s)) == sprite_view(*old(s)).insert((x as int, y as int), c),
{
    s.img.put_pixel(x, y, image::Rgba([c.0, c.1, c.2, c.3]))
}

/// Relies on `image::ImageBuffer::get_pixel`: returns the pixel at (x, y),
/// which must be in bounds.
#[verifier::external_body]
fn sprite_get(s: &Sprite, x: u32, y: u32) -> (c: (u8, u8, u8, u8))
    requires
        x < sprite_width(*s),
        y < sprite_height(*s),
        sprite_view(*s).dom().contains((x as int, y as int)),
    ensures
        c == sprite_view(*s)[(x as int, y as int)],
{
    let p = s.img.get_pixel(x, y);
    (p.0[0], p.0[1], p.0[2], p.0[3])
}

/// The (red, green, blue, alpha) channels of the pixel at (x, y).
pub fn sprite_pixel(s: &Sprite, x: u32, y: u32) -> (c: (u8, u8, u8, u8))
    requires
        x < sprite_width(*s),
        y < sprite_height(*s),
        sprite_view(*s).dom().contains((x as int, y as int)),
    ensures
        c == sprite_view(*s)[(x as int, y as int)],
{
    sprite_get(s, x, y)
}

} // verus!
