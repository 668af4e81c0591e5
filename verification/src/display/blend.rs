//! Alpha blending and ordered dithering on an RGB565 framebuffer.
//!
//! [`BlendTarget`] holds the drawing operations whose pixels can be read
//! back: plain pixel and area writes, per-pixel alpha blending and
//! dithered gradient fills. The free functions are the shared pixel math:
//! implementors call them so the blend/dither behavior stays identical
//! everywhere.
//!
//! All coordinates are panel-absolute; implementors clip.

use vstd::prelude::*;
use embedded_graphics_core::geometry::{Point, Size};
use embedded_graphics_core::primitives::Rectangle;

verus! {

/// A colour of 5, 6 and 5 bits per channel.
#[derive(Debug, Clone, Copy, PartialEq, Eq)]
pub struct Rgb565 {
    r: u8,
    g: u8,
    b: u8,
}

/// The channels of a colour.
pub ghost struct Channels {
    pub r: int,
    pub g: int,
    pub b: int,
}

impl View for Rgb565 {
    type V = Channels;

    closed spec fn view(&self) -> Channels {
        Channels { r: self.r as int, g: self.g as int, b: self.b as int }
    }
}

impl Channels {
    /// The raw RGB565 wire format: red in the top five bits, then green,
    /// then blue.
    pub open spec fn packed(self) -> u16 {
        (self.r * 2048 + self.g * 32 + self.b) as u16
    }

    /// Each channel is within its width.
    pub open spec fn in_range(self) -> bool {
        0 <= self.r < 32 && 0 <= self.g < 64 && 0 <= self.b < 32
    }
}

/// The channels of a packed pixel.
pub open spec fn channels(c: u16) -> Channels {
    Channels { r: c as int / 2048, g: c as int / 32 % 64, b: c as int % 32 }
}

impl Rgb565 {
    #[verifier::type_invariant]
    spec fn widths(self) -> bool {
        self.r < 32 && self.g < 64 && self.b < 32
    }

    /// The colour with these channels, each cut to its width.
    pub fn new(r: u8, g: u8, b: u8) -> (c: Rgb565)
        ensures
            c@ == (Channels { r: r as int % 32, g: g as int % 64, b: b as int % 32 }),
    {
        Rgb565 { r: r % 32, g: g % 64, b: b % 32 }
    }

    pub fn r(&self) -> (r: u8)
        ensures
            r == self@.r,
            r < 32,
    {
        proof {
            use_type_invariant(&*self);
        }
        self.r
    }

    pub fn g(&self) -> (r: u8)
        ensures
            r == self@.g,
            r < 64,
    {
        proof {
            use_type_invariant(&*self);
        }
        self.g
    }

    pub fn b(&self) -> (r: u8)
        ensures
            r == self@.b,
            r < 32,
    {
        proof {
            use_type_invariant(&*self);
        }
        self.b
    }
}

// ---- Areas ------------------------------------------------------------------

/// A rectangle: columns `x .. x + w`, rows `y .. y + h`.
#[derive(Debug, Clone, Copy, PartialEq, Eq, Structural)]
pub struct Rect {
    pub x: i32,
    pub y: i32,
    pub w: u32,
    pub h: u32,
}

impl Rect {
    /// Column `u` of row `v` lies inside.
    pub open spec fn has(self, u: int, v: int) -> bool {
        self.x <= u < self.x + self.w && self.y <= v < self.y + self.h
    }

    /// The far edges are within the coordinate range.
    pub open spec fn fits(self) -> bool {
        self.x + self.w <= i32::MAX && self.y + self.h <= i32::MAX && self.w <= i32::MAX && self.h <= i32::MAX
    }

    /// Nothing lies inside.
    pub open spec fn empty(self) -> bool {
        self.w == 0 || self.h == 0
    }

    /// What two rectangles share. Of two that share nothing, and of two
    /// empty ones, this is the empty rectangle at the origin; an empty
    /// one whose corner lies inside the other is itself what they share.
    pub open spec fn shared(self, other: Rect) -> Rect {
        let left = if self.x > other.x { self.x } else { other.x };
        let top = if self.y > other.y { self.y } else { other.y };
        let right = if self.x + self.w < other.x + other.w { self.x + self.w } else { other.x + other.w };
        let bottom = if self.y + self.h < other.y + other.h { self.y + self.h } else { other.y + other.h };
        if self.empty() && !other.empty() && other.has(self.x as int, self.y as int) {
            self
        } else if other.empty() && !self.empty() && self.has(other.x as int, other.y as int) {
            other
        } else if !self.empty() && !other.empty() && left < right && top < bottom {
            Rect { x: left, y: top, w: (right - left) as u32, h: (bottom - top) as u32 }
        } else {
            Rect { x: 0, y: 0, w: 0, h: 0 }
        }
    }

    /// `Rectangle::intersection` of the embedded-graphics-core crate: the
    /// rectangle of the points in both. The contract gives its corner and
    /// size for every pair of rectangles whose far edges do not overflow
    /// (on others the crate's coordinate sums overflow).
    #[verifier::external_body]
    pub(crate) fn intersection(&self, other: &Rect) -> (r: Rect)
        requires
            self.fits(),
            other.fits(),
        ensures
            r == self.shared(*other),
    {
        let a = Rectangle::new(Point::new(self.x, self.y), Size::new(self.w, self.h));
        let b = Rectangle::new(Point::new(other.x, other.y), Size::new(other.w, other.h));
        let i = a.intersection(&b);
        Rect { x: i.top_left.x, y: i.top_left.y, w: i.size.width, h: i.size.height }
    }

    /// `Rectangle::contains` of the embedded-graphics-core crate: whether
    /// a point lies inside. The far edges must not overflow.
    #[verifier::external_body]
    pub(crate) fn contains(&self, x: i32, y: i32) -> (r: bool)
        requires
            self.fits(),
        ensures
            r == self.has(x as int, y as int),
    {
        Rectangle::new(Point::new(self.x, self.y), Size::new(self.w, self.h)).contains(Point::new(x, y))
    }
}

/// What two rectangles share is what lies inside both.
pub proof fn shared_is_what_lies_in_both(a: Rect, b: Rect, u: int, v: int)
    ensures
        a.shared(b).has(u, v) <==> a.has(u, v) && b.has(u, v),
        a.fits() && b.fits() ==> a.shared(b).fits(),
{
}

// ---- Targets ----------------------------------------------------------------

/// One pixel to draw.
#[derive(Debug, Clone, Copy, PartialEq, Eq)]
pub struct Dot {
    pub x: i32,
    pub y: i32,
    pub color: Rgb565,
}

/// Pixel `p` of a target once `c` is written over it, if `hit`. A pixel
/// that the target does not hold stays absent.
pub open spec fn painted(p: Option<u16>, hit: bool, c: u16) -> Option<u16> {
    match p {
        Some(old) => Some(if hit { c } else { old }),
        None => None,
    }
}

/// Pixel `p` of a target once `c` is blended over it with `alpha`, if
/// `hit`.
pub open spec fn blended(p: Option<u16>, hit: bool, c: u16, alpha: u8) -> Option<u16> {
    match p {
        Some(old) => Some(if hit { mixed565(old, c, alpha).packed() } else { old }),
        None => None,
    }
}

/// Pixel `p` at `(u, v)` of a target once `dots` are drawn in order.
pub open spec fn dotted(p: Option<u16>, u: int, v: int, dots: Seq<Dot>) -> Option<u16>
    decreases dots.len(),
{
    if dots.len() == 0 {
        p
    } else {
        let last = dots.last();
        painted(dotted(p, u, v, dots.drop_last()), last.x == u && last.y == v, last.color@.packed())
    }
}

/// The pixel at `(u, v)` of a vertical gradient over the rows `y .. y +
/// h`, from `top` to `bottom`, ordered-dithered.
pub open spec fn gradient(u: int, v: int, y: int, h: int, top: Channels, bottom: Channels) -> u16 {
    let num = v - y;
    let den = if h - 1 > 1 { h - 1 } else { 1 };
    dithered565(
        lerp(expand5(top.r), expand5(bottom.r), num, den),
        lerp(expand6(top.g), expand6(bottom.g), num, den),
        lerp(expand5(top.b), expand5(bottom.b), num, den),
        bayer(u, v),
    ).packed()
}

/// Column `u` of row `v` lies in the columns `x .. x + w` and the rows `y
/// .. y + h`.
pub open spec fn within(u: int, v: int, x: int, y: int, w: int, h: int) -> bool {
    x <= u < x + w && y <= v < y + h
}

/// A target whose pixels can be read back, which makes alpha blending and
/// dithered fills possible.
pub trait BlendTarget: Sized {
    /// The packed pixel at panel-absolute `(u, v)`, where the target
    /// holds it.
    spec fn pixel(&self, u: int, v: int) -> Option<u16>;

    /// The target is in order.
    spec fn valid(&self) -> bool;

    /// The area that can be drawn to.
    spec fn bounds(&self) -> Rect;

    fn bounding_box(&self) -> (r: Rect)
        requires
            self.valid(),
        ensures
            r == self.bounds(),
            r.fits(),
    ;

    /// Write pixels in order.
    fn draw_iter(&mut self, dots: &[Dot])
        requires
            old(self).valid(),
        ensures
            final(self).valid(),
            final(self).bounds() == old(self).bounds(),
            forall|u: int, v: int| #[trigger]
                final(self).pixel(u, v) == dotted(old(self).pixel(u, v), u, v, dots@),
    ;

    /// Fill an area with one colour.
    fn fill_area(&mut self, area: &Rect, color: Rgb565)
        requires
            area.fits(),
            old(self).valid(),
        ensures
            final(self).valid(),
            final(self).bounds() == old(self).bounds(),
            forall|u: int, v: int| #[trigger]
                final(self).pixel(u, v) == painted(old(self).pixel(u, v), area.has(u, v), color@.packed()),
    ;

    /// Blend `color` over the existing pixel at panel-absolute `(x, y)`
    /// with `alpha` (0 = keep destination, 255 = opaque).
    fn blend_pixel(&mut self, x: i32, y: i32, color: Rgb565, alpha: u8)
        requires
            old(self).valid(),
        ensures
            final(self).valid(),
            final(self).bounds() == old(self).bounds(),
            forall|u: int, v: int| #[trigger]
                final(self).pixel(u, v) == blended(old(self).pixel(u, v), u == x && v == y, color@.packed(), alpha),
    ;

    /// Fill a rectangle with a vertical gradient from `top` to `bottom`,
    /// ordered-dithered (Bayer 4x4) so RGB565 banding disappears. Opaque.
    /// The ramp spans `[y, y + h)` in panel coordinates, so a fill split
    /// across tiles stays seamless.
    fn fill_vgradient(&mut self, x: i32, y: i32, w: i32, h: i32, top: Rgb565, bottom: Rgb565)
        requires
            old(self).valid(),
        ensures
            final(self).valid(),
            final(self).bounds() == old(self).bounds(),
            forall|u: int, v: int| #[trigger]
                final(self).pixel(u, v) == painted(
                    old(self).pixel(u, v),
                    within(u, v, x as int, y as int, w as int, h as int),
                    gradient(u, v, y as int, h as int, top@, bottom@),
                ),
    ;

    /// Blend a constant-alpha rectangle of `color` over the existing
    /// pixels.
    fn fill_blend(&mut self, x: i32, y: i32, w: i32, h: i32, color: Rgb565, alpha: u8)
        requires
            old(self).valid(),
        ensures
            final(self).valid(),
            final(self).bounds() == old(self).bounds(),
            forall|u: int, v: int| #[trigger]
                final(self).pixel(u, v) == blended(
                    old(self).pixel(u, v),
                    within(u, v, x as int, y as int, w as int, h as int),
                    color@.packed(),
                    alpha,
                ),
    ;
}

/// The pixel at `(px, py)` of a vertical gradient over the rows `y .. y +
/// h`.
pub fn gradient_at(px: i32, py: i32, y: i32, h: i32, top: Rgb565, bottom: Rgb565) -> (r: u16)
    requires
        y <= py < y + h,
    ensures
        r == gradient(px as int, py as int, y as int, h as int, top@, bottom@),
{
    let (tr, tg, tb) = expand565(pack565(top));
    let (br, bg, bb) = expand565(pack565(bottom));
    let den: u32 = if h > 2 { (h - 1) as u32 } else { 1 };
    // Ramp position from the panel-absolute rect top, so the gradient is
    // seamless across tile boundaries.
    let num: u32 = (py as i64 - y as i64) as u32;
    let r8: u8 = lerp8(tr, br, num, den);
    let g8: u8 = lerp8(tg, bg, num, den);
    let b8: u8 = lerp8(tb, bb, num, den);
    dither565(r8, g8, b8, bayer_at(px, py))
}

// ---- Clipping adapter -------------------------------------------------------

/// The larger of two numbers.
pub open spec fn larger(a: int, b: int) -> int {
    if a > b { a } else { b }
}

/// The smaller of two numbers.
pub open spec fn smaller(a: int, b: int) -> int {
    if a < b { a } else { b }
}

/// Rectangular clipping adapter that preserves the [`BlendTarget`]
/// operations. Coordinates stay panel-absolute; writes outside `clip` are
/// dropped. What is drawn through it is in the parent once the adapter is
/// gone.
pub struct BlendClipped<'a, D: BlendTarget> {
    pub parent: &'a mut D,
    pub clip: Rect,
}

impl<'a, D: BlendTarget> BlendClipped<'a, D> {
    /// The pixel of the target behind the clip.
    pub open spec fn behind(&self, u: int, v: int) -> Option<u16> {
        self.parent.pixel(u, v)
    }

    /// Clip all drawing to `clip` (intersected with the parent's own
    /// bounding box).
    pub fn new(parent: &'a mut D, clip: &Rect) -> (r: BlendClipped<'a, D>)
        requires
            clip.fits(),
            old(parent).valid(),
        ensures
            r.valid(),
            r.bounds() == clip.shared(old(parent).bounds()),
            *r.parent == *old(parent),
            *final(parent) == *final(r.parent),
    {
        let bounds: Rect = parent.bounding_box();
        proof {
            shared_is_what_lies_in_both(*clip, bounds, 0, 0);
        }
        let clip: Rect = clip.intersection(&bounds);
        BlendClipped { parent, clip }
    }

    /// Write the pixel at `(px, py)` of a gradient to the target behind.
    fn ramp_pixel(&mut self, px: i32, py: i32, y: i32, h: i32, top: Rgb565, bottom: Rgb565)
        requires
            old(self).valid(),
            y <= py < y + h,
        ensures
            final(self).valid(),
            final(self).clip == old(self).clip,
            *final(final(self).parent) == *final(old(self).parent),
            forall|u: int, v: int| #[trigger]
                final(self).behind(u, v) == painted(
                    old(self).behind(u, v),
                    u == px && v == py,
                    gradient(px as int, py as int, y as int, h as int, top@, bottom@),
                ),
    {
        let raw: u16 = gradient_at(px, py, y, h, top, bottom);
        let color: Rgb565 = Rgb565::new((raw / 2048) as u8, (raw / 32 % 64) as u8, (raw % 32) as u8);
        proof {
            assert(color@ == channels(raw));
            packing_round_trip(raw, channels(raw));
        }
        self.parent.blend_pixel(px, py, color, 255);
        proof {
            assert forall|u: int, v: int| #[trigger] self.behind(u, v) == painted(
                old(self).behind(u, v),
                u == px && v == py,
                raw,
            ) by {
                opaque_blend_writes(old(self).behind(u, v), u == px && v == py, raw);
            }
        }
    }

    /// Intersect a `(x, y, w, h)` rect with the clip window. Returns
    /// panel-absolute `(x, y, w, h)`, or `None` when nothing remains.
    fn clip_xywh(&self, x: i32, y: i32, w: i32, h: i32) -> (r: Option<(i32, i32, i32, i32)>)
        requires
            self.clip.fits(),
        ensures
            ({
                let left = larger(x as int, self.clip.x as int);
                let top = larger(y as int, self.clip.y as int);
                let right = smaller(x + w, self.clip.x + self.clip.w);
                let bottom = smaller(y + h, self.clip.y + self.clip.h);
                match r {
                    Some(c) => {
                        &&& left < right && top < bottom
                        &&& c.0 == left && c.1 == top
                        &&& c.0 + c.2 == right && c.1 + c.3 == bottom
                    },
                    None => left >= right || top >= bottom,
                }
            }),
    {
        let cx0: i32 = if x > self.clip.x { x } else { self.clip.x };
        let cy0: i32 = if y > self.clip.y { y } else { self.clip.y };
        let right: i64 = self.clip.x as i64 + self.clip.w as i64;
        let bottom: i64 = self.clip.y as i64 + self.clip.h as i64;
        let cx1: i64 = if x as i64 + (w as i64) < right { x as i64 + w as i64 } else { right };
        let cy1: i64 = if y as i64 + (h as i64) < bottom { y as i64 + h as i64 } else { bottom };
        if cx0 as i64 >= cx1 || cy0 as i64 >= cy1 {
            None
        } else {
            Some((cx0, cy0, (cx1 - cx0 as i64) as i32, (cy1 - cy0 as i64) as i32))
        }
    }
}

/// The dots that lie inside `clip`, in order.
pub open spec fn kept(dots: Seq<Dot>, clip: Rect) -> Seq<Dot> {
    dots.filter(|d: Dot| clip.has(d.x as int, d.y as int))
}

/// Inside the clip, drawing the kept dots is drawing all of them; outside
/// it, nothing is drawn.
proof fn kept_dots_draw_the_same(p: Option<u16>, u: int, v: int, dots: Seq<Dot>, clip: Rect)
    ensures
        dotted(p, u, v, kept(dots, clip)) == if clip.has(u, v) { dotted(p, u, v, dots) } else { p },
    decreases dots.len(),
{
    reveal(Seq::filter);
    if dots.len() > 0 {
        let last = dots.last();
        let rest = dots.drop_last();
        kept_dots_draw_the_same(p, u, v, rest, clip);
        if clip.has(last.x as int, last.y as int) {
            assert(kept(dots, clip) == kept(rest, clip).push(last));
            assert(kept(dots, clip).drop_last() =~= kept(rest, clip));
        } else {
            assert(kept(dots, clip) == kept(rest, clip));
        }
        dots_keep_absence(p, u, v, rest);
    }
}

/// A pixel is absent after drawing just where it was before.
proof fn dots_keep_absence(p: Option<u16>, u: int, v: int, dots: Seq<Dot>)
    ensures
        dotted(p, u, v, dots) is None <==> p is None,
    decreases dots.len(),
{
    if dots.len() > 0 {
        dots_keep_absence(p, u, v, dots.drop_last());
    }
}

/// Blending at full weight writes the colour.
proof fn opaque_blend_writes(p: Option<u16>, hit: bool, c: u16)
    ensures
        blended(p, hit, c, 255) == painted(p, hit, c),
{
    if let Some(old) = p {
        blend_endpoints(old, c);
    }
}

impl<'a, D: BlendTarget> BlendTarget for BlendClipped<'a, D> {
    open spec fn pixel(&self, u: int, v: int) -> Option<u16> {
        if self.bounds().has(u, v) {
            self.behind(u, v)
        } else {
            None
        }
    }

    open spec fn valid(&self) -> bool {
        self.clip.fits() && self.parent.valid()
    }

    open spec fn bounds(&self) -> Rect {
        self.clip
    }

    fn bounding_box(&self) -> (r: Rect) {
        self.clip
    }

    fn draw_iter(&mut self, dots: &[Dot])
        ensures
            *final(final(self).parent) == *final(old(self).parent),
            forall|u: int, v: int| !old(self).bounds().has(u, v) ==> #[trigger] final(self).behind(u, v)
                == old(self).behind(u, v),
    {
        let mut inside: Vec<Dot> = Vec::new();
        let mut i: usize = 0;
        proof {
            reveal(Seq::filter);
        }
        while i < dots.len()
            invariant
                i <= dots@.len(),
                self.clip.fits(),
                *self == *old(self),
                inside@ == kept(dots@.take(i as int), self.clip),
            decreases dots@.len() - i,
        {
            let d: Dot = dots[i];
            proof {
                reveal(Seq::filter);
                assert(dots@.take(i + 1).drop_last() =~= dots@.take(i as int));
            }
            if self.clip.contains(d.x, d.y) {
                inside.push(d);
            }
            i = i + 1;
        }
        assert(dots@.take(i as int) =~= dots@);
        self.parent.draw_iter(&inside);
        proof {
            assert forall|u: int, v: int| #[trigger] self.behind(u, v) == (if self.clip.has(u, v) {
                dotted(old(self).behind(u, v), u, v, dots@)
            } else {
                old(self).behind(u, v)
            }) by {
                kept_dots_draw_the_same(old(self).behind(u, v), u, v, dots@, self.clip);
            }
            assert forall|u: int, v: int| #[trigger] self.pixel(u, v) == dotted(old(self).pixel(u, v), u, v, dots@) by {
                assert(self.behind(u, v) == self.behind(u, v));
                dots_keep_absence(None, u, v, dots@);
            }
        }
    }

    fn fill_area(&mut self, area: &Rect, color: Rgb565)
        ensures
            *final(final(self).parent) == *final(old(self).parent),
            forall|u: int, v: int| !old(self).bounds().has(u, v) ==> #[trigger] final(self).behind(u, v)
                == old(self).behind(u, v),
    {
        let ghost whole = *area;
        proof {
            assert forall|u: int, v: int| whole.shared(self.clip).has(u, v) <==> whole.has(u, v) && self.clip.has(u, v) by {
                shared_is_what_lies_in_both(whole, self.clip, u, v);
            }
            shared_is_what_lies_in_both(whole, self.clip, 0, 0);
        }
        let part: Rect = area.intersection(&self.clip);
        if part.w == 0 || part.h == 0 {
            return ;
        }
        self.parent.fill_area(&part, color);
        proof {
            assert forall|u: int, v: int| #[trigger] self.behind(u, v) == painted(
                old(self).behind(u, v),
                part.has(u, v),
                color@.packed(),
            ) by {}
        }
    }

    fn blend_pixel(&mut self, x: i32, y: i32, color: Rgb565, alpha: u8)
        ensures
            *final(final(self).parent) == *final(old(self).parent),
            forall|u: int, v: int| !old(self).bounds().has(u, v) ==> #[trigger] final(self).behind(u, v)
                == old(self).behind(u, v),
    {
        if self.clip.contains(x, y) {
            self.parent.blend_pixel(x, y, color, alpha);
            proof {
                assert forall|u: int, v: int| #[trigger] self.behind(u, v) == blended(
                    old(self).behind(u, v),
                    u == x && v == y,
                    color@.packed(),
                    alpha,
                ) by {}
            }
        }
    }

    fn fill_vgradient(&mut self, x: i32, y: i32, w: i32, h: i32, top: Rgb565, bottom: Rgb565)
        ensures
            *final(final(self).parent) == *final(old(self).parent),
            forall|u: int, v: int| !old(self).bounds().has(u, v) ==> #[trigger] final(self).behind(u, v)
                == old(self).behind(u, v),
    {
        // The ramp must stay anchored to the caller's rect even when the
        // clip cuts it, so this can't forward the clipped rect to the
        // parent (that would compress the gradient). Row by row, each
        // surviving row keeps its position in the original ramp.
        let (cx, cy, cw, ch) = match self.clip_xywh(x, y, w, h) {
            Some(c) => c,
            None => return,
        };
        let mut py: i32 = cy;
        while py < cy + ch
            invariant
                cy <= py <= cy + ch <= i32::MAX,
                cx + cw <= i32::MAX,
                cw > 0,
                self.clip == old(self).clip,
                *final(self.parent) == *final(old(self).parent),
                self.parent.valid(),
                self.clip.fits(),
                cx == larger(x as int, self.clip.x as int),
                cy == larger(y as int, self.clip.y as int),
                cx + cw == smaller(x + w, self.clip.x + self.clip.w),
                cy + ch == smaller(y + h, self.clip.y + self.clip.h),
                forall|u: int, v: int| #[trigger]
                    self.behind(u, v) == painted(
                        old(self).behind(u, v),
                        within(u, v, cx as int, cy as int, cw as int, py - cy),
                        gradient(u, v, y as int, h as int, top@, bottom@),
                    ),
            decreases cy + ch - py,
        {
            let mut px: i32 = cx;
            while px < cx + cw
                invariant
                    cy <= py < cy + ch <= i32::MAX,
                    cx <= px <= cx + cw <= i32::MAX,
                    self.clip == old(self).clip,
                    *final(self.parent) == *final(old(self).parent),
                    self.parent.valid(),
                    self.clip.fits(),
                    cx == larger(x as int, self.clip.x as int),
                    cy == larger(y as int, self.clip.y as int),
                    cx + cw == smaller(x + w, self.clip.x + self.clip.w),
                    cy + ch == smaller(y + h, self.clip.y + self.clip.h),
                    forall|u: int, v: int| #[trigger]
                        self.behind(u, v) == painted(
                            old(self).behind(u, v),
                            within(u, v, cx as int, cy as int, cw as int, py - cy) || (v == py && cx <= u < px),
                            gradient(u, v, y as int, h as int, top@, bottom@),
                        ),
                decreases cx + cw - px,
            {
                let ghost before = *self;
                self.ramp_pixel(px, py, y, h, top, bottom);
                proof {
                    assert forall|u: int, v: int| #[trigger] self.behind(u, v) == painted(
                        old(self).behind(u, v),
                        within(u, v, cx as int, cy as int, cw as int, py - cy) || (v == py && cx <= u < px + 1),
                        gradient(u, v, y as int, h as int, top@, bottom@),
                    ) by {
                        assert(before.behind(u, v) == before.behind(u, v));
                    }
                }
                px = px + 1;
            }
            py = py + 1;
        }
        proof {
            assert forall|u: int, v: int| #[trigger] self.pixel(u, v) == painted(
                old(self).pixel(u, v),
                within(u, v, x as int, y as int, w as int, h as int),
                gradient(u, v, y as int, h as int, top@, bottom@),
            ) by {
                assert(self.behind(u, v) == self.behind(u, v));
            }
        }
    }

    fn fill_blend(&mut self, x: i32, y: i32, w: i32, h: i32, color: Rgb565, alpha: u8)
        ensures
            *final(final(self).parent) == *final(old(self).parent),
            forall|u: int, v: int| !old(self).bounds().has(u, v) ==> #[trigger] final(self).behind(u, v)
                == old(self).behind(u, v),
    {
        let (cx, cy, cw, ch) = match self.clip_xywh(x, y, w, h) {
            Some(c) => c,
            None => return,
        };
        self.parent.fill_blend(cx, cy, cw, ch, color, alpha);
        proof {
            assert forall|u: int, v: int| #[trigger] self.behind(u, v) == blended(
                old(self).behind(u, v),
                within(u, v, x as int, y as int, w as int, h as int) && self.clip.has(u, v),
                color@.packed(),
                alpha,
            ) by {
            }
        }
    }
}

// ---- Shared pixel math ------------------------------------------------------

/// Bayer 4x4 ordered-dither threshold (0..=15) for a pixel position.
pub open spec fn bayer(x: int, y: int) -> int {
    let (i, j) = (x % 4, y % 4);
    if j == 0 {
        if i == 0 { 0 } else if i == 1 { 8 } else if i == 2 { 2 } else { 10 }
    } else if j == 1 {
        if i == 0 { 12 } else if i == 1 { 4 } else if i == 2 { 14 } else { 6 }
    } else if j == 2 {
        if i == 0 { 3 } else if i == 1 { 11 } else if i == 2 { 1 } else { 9 }
    } else {
        if i == 0 { 15 } else if i == 1 { 7 } else if i == 2 { 13 } else { 5 }
    }
}

/// Bayer 4x4 ordered-dither thresholds (0..=15). Indexed `[y & 3][x & 3]`.
pub const BAYER4: [[u8; 4]; 4] = [[0, 8, 2, 10], [12, 4, 14, 6], [3, 11, 1, 9], [15, 7, 13, 5]];

/// The threshold for column `x` of row `y`.
pub fn bayer_at(x: i32, y: i32) -> (t: u8)
    ensures
        t == bayer(x as int, y as int),
        t < 16,
{
    let i: usize = modulo4(x);
    let j: usize = modulo4(y);
    BAYER4[j][i]
}

fn modulo4(x: i32) -> (r: usize)
    ensures
        r == x as int % 4,
{
    let m: i64 = (x as i64 + 0x1_0000_0000) % 4;
    m as usize
}

/// Expand one channel of `bits` levels to 8 bits.
pub open spec fn expand5(c: int) -> int {
    c * 8 + c / 4
}

pub open spec fn expand6(c: int) -> int {
    c * 4 + c / 16
}

/// Expand a packed RGB565 pixel to 8-bit channels with bit replication,
/// so full-scale 565 maps to full-scale 888.
pub fn expand565(c: u16) -> (r: (u8, u8, u8))
    ensures
        r.0 == expand5(channels(c).r),
        r.1 == expand6(channels(c).g),
        r.2 == expand5(channels(c).b),
{
    let r5: u8 = (c / 2048) as u8;
    let g6: u8 = (c / 32 % 64) as u8;
    let b5: u8 = (c % 32) as u8;
    (r5 * 8 + r5 / 4, g6 * 4 + g6 / 16, b5 * 8 + b5 / 4)
}

/// Pack channels into the raw RGB565 format.
fn pack(r: u16, g: u16, b: u16) -> (c: u16)
    requires
        r < 32,
        g < 64,
        b < 32,
    ensures
        c == r * 2048 + g * 32 + b,
        channels(c) == (Channels { r: r as int, g: g as int, b: b as int }),
{
    r * 2048 + g * 32 + b
}

/// Pack a colour to the raw RGB565 wire format.
pub fn pack565(c: Rgb565) -> (r: u16)
    ensures
        r == c@.packed(),
        channels(r) == c@,
{
    pack(c.r() as u16, c.g() as u16, c.b() as u16)
}

/// One 8-bit channel quantized to `maxq + 1` levels with threshold `t`.
pub open spec fn dithered(v8: int, maxq: int, t: int) -> int {
    let q = (v8 * maxq + (t * 255 + 8) / 16) / 255;
    if q > maxq { maxq } else { q }
}

/// Quantize one 8-bit channel to `maxq + 1` levels (`maxq` = 31 or 63)
/// with an ordered-dither threshold `t` (0..=15). The bias spans exactly
/// one quantization step, so outputs are always the floor or ceil of the
/// ideal value and a 4x4 block averages to it.
pub fn dither_channel(v8: u32, maxq: u32, t: u32) -> (r: u16)
    requires
        v8 <= 255,
        maxq <= 63,
        t <= 255,
    ensures
        r == dithered(v8 as int, maxq as int, t as int),
        r <= maxq,
{
    assert(v8 * maxq <= 255 * 63) by (nonlinear_arith)
        requires
            v8 <= 255,
            maxq <= 63,
    ;
    let scaled: u32 = v8 * maxq;
    let biased: u32 = scaled + (t * 255 + 8) / 16;
    let q: u32 = biased / 255;
    if q > maxq {
        maxq as u16
    } else {
        q as u16
    }
}

/// An 8-bit-per-channel colour quantized with threshold `t`.
pub open spec fn dithered565(r8: int, g8: int, b8: int, t: int) -> Channels {
    Channels { r: dithered(r8, 31, t), g: dithered(g8, 63, t), b: dithered(b8, 31, t) }
}

/// Quantize an 8-bit-per-channel color to packed RGB565 with ordered
/// dithering. `t` is the Bayer threshold for this pixel position.
pub fn dither565(r8: u8, g8: u8, b8: u8, t: u8) -> (r: u16)
    ensures
        channels(r) == dithered565(r8 as int, g8 as int, b8 as int, t as int),
        r == dithered565(r8 as int, g8 as int, b8 as int, t as int).packed(),
{
    let r5: u16 = dither_channel(r8 as u32, 31, t as u32);
    let g6: u16 = dither_channel(g8 as u32, 63, t as u32);
    let b5: u16 = dither_channel(b8 as u32, 31, t as u32);
    pack(r5, g6, b5)
}

/// `s` over `d` at weight `a` of 255, rounded to nearest.
pub open spec fn mixed(d: int, s: int, a: int) -> int {
    (d * (255 - a) + s * a + 127) / 255
}

/// `src` over `dst`, channel by channel.
pub open spec fn mixed565(dst: u16, src: u16, alpha: u8) -> Channels {
    let (d, s) = (channels(dst), channels(src));
    Channels { r: mixed(d.r, s.r, alpha as int), g: mixed(d.g, s.g, alpha as int), b: mixed(d.b, s.b, alpha as int) }
}

/// One channel of a blend.
fn mix(d: u32, s: u32, a: u32, max: u32) -> (r: u16)
    requires
        d <= max,
        s <= max,
        max <= 63,
        a <= 255,
    ensures
        r == mixed(d as int, s as int, a as int),
        r <= max,
{
    proof {
        mixed_stays_between(d as int, s as int, a as int);
    }
    assert(d * (255 - a) <= 63 * 255 && s * a <= 63 * 255) by (nonlinear_arith)
        requires
            d <= 63,
            s <= 63,
            a <= 255,
    ;
    ((d * (255 - a) + s * a + 127) / 255) as u16
}

/// Blend `src` over `dst` (both packed RGB565) with `alpha` (0 = dst, 255
/// = src). Component-wise in native 565 widths.
pub fn blend565(dst: u16, src: u16, alpha: u8) -> (r: u16)
    ensures
        channels(r) == mixed565(dst, src, alpha),
        r == mixed565(dst, src, alpha).packed(),
{
    let a: u32 = alpha as u32;
    let r: u16 = mix((dst / 2048) as u32, (src / 2048) as u32, a, 31);
    let g: u16 = mix((dst / 32 % 64) as u32, (src / 32 % 64) as u32, a, 63);
    let b: u16 = mix((dst % 32) as u32, (src % 32) as u32, a, 31);
    pack(r, g, b)
}

/// Scale a packed RGB565 color by `alpha` (0 = black, 255 = unchanged) -
/// blending against a known-black background without reading it.
pub fn scale565(c: u16, alpha: u8) -> (r: u16)
    ensures
        channels(r) == mixed565(0, c, alpha),
        r == mixed565(0, c, alpha).packed(),
{
    blend565(0, c, alpha)
}

/// The value at `num / den` of the way from `a` to `b`, rounded to
/// nearest.
pub open spec fn lerp(a: int, b: int, num: int, den: int) -> int {
    (a * (den - num) + b * num + den / 2) / den
}

/// Linear interpolation between two 8-bit values at `num / den` (`num <=
/// den`, `den > 0`).
pub fn lerp8(a: u8, b: u8, num: u32, den: u32) -> (r: u8)
    requires
        num <= den,
        den > 0,
    ensures
        r == lerp(a as int, b as int, num as int, den as int),
{
    proof {
        lerp_stays_between(a as int, b as int, num as int, den as int);
    }
    assert(a * (den - num) <= 255 * den && b * num <= 255 * den) by (nonlinear_arith)
        requires
            a <= 255,
            b <= 255,
            num <= den,
    ;
    let (a, b, num, den): (u64, u64, u64, u64) = (a as u64, b as u64, num as u64, den as u64);
    ((a * (den - num) + b * num + den / 2) / den) as u8
}

// ---- Laws of the pixel math -------------------------------------------------

/// Packing undoes unpacking, and unpacking undoes packing.
pub proof fn packing_round_trip(c: u16, ch: Channels)
    requires
        ch.in_range(),
    ensures
        channels(c).in_range(),
        channels(c).packed() == c,
        channels(ch.packed()) == ch,
{
}

/// Full-scale 565 maps to full-scale 888, black to black, and the top
/// bits of an expanded channel are the channel.
pub proof fn expansion_keeps_the_channel(c: u16)
    ensures
        expand5(channels(c).r) / 8 == channels(c).r,
        expand6(channels(c).g) / 4 == channels(c).g,
        expand5(channels(c).b) / 8 == channels(c).b,
        expand5(31) == 255 && expand6(63) == 255,
        expand5(0) == 0 && expand6(0) == 0,
        0 <= expand5(channels(c).r) <= 255,
        0 <= expand6(channels(c).g) <= 255,
        0 <= expand5(channels(c).b) <= 255,
{
}

/// A dithered channel is the floor or the ceil of the ideal value.
pub proof fn dither_is_floor_or_ceil(v8: int, maxq: int, t: int)
    requires
        0 <= v8 <= 255,
        maxq == 31 || maxq == 63,
        0 <= t <= 15,
    ensures
        ({
            let floor = v8 * maxq / 255;
            let ceil = floor + if v8 * maxq % 255 == 0 { 0int } else { 1int };
            dithered(v8, maxq, t) == floor || dithered(v8, maxq, t) == ceil
        }),
{
}

/// A higher threshold never gives a lower channel.
pub proof fn dither_rises_with_the_threshold(v8: int, maxq: int, t1: int, t2: int)
    requires
        0 <= v8 <= 255,
        maxq == 31 || maxq == 63,
        0 <= t1 <= t2,
    ensures
        dithered(v8, maxq, t1) <= dithered(v8, maxq, t2),
{
}

/// The sum of a channel dithered with thresholds `0 .. n`.
pub open spec fn dither_sum(v8: int, maxq: int, n: nat) -> int
    decreases n,
{
    if n == 0 {
        0
    } else {
        dither_sum(v8, maxq, (n - 1) as nat) + dithered(v8, maxq, n - 1)
    }
}

/// Over the sixteen thresholds, a dithered channel averages to within
/// half a quantization step of the ideal value.
pub proof fn dither_averages_to_the_ideal(v8: int, maxq: int)
    requires
        0 <= v8 <= 255,
        maxq == 31 || maxq == 63,
    ensures
        -255 * 8 <= dither_sum(v8, maxq, 16) * 255 - v8 * maxq * 16 <= 255 * 8,
{
    let floor = v8 * maxq / 255;
    let rest = v8 * maxq % 255;
    sum_by_rest(v8, maxq, 16);
    steps_follow_the_rest(rest);
}

/// Whether a rest of `rest` is rounded up by a bias of `bias`.
spec fn step_up(rest: int, bias: int) -> int {
    if rest + bias >= 255 { 1 } else { 0 }
}

/// How many of the thresholds `0 .. n` round a rest of `rest` up.
spec fn steps_up(rest: int, n: nat) -> int
    decreases n,
{
    if n == 0 {
        0
    } else {
        steps_up(rest, (n - 1) as nat) + step_up(rest, ((n - 1) * 255 + 8) / 16)
    }
}

/// The sum over the thresholds `0 .. n` is `n` floors and the steps up.
proof fn sum_by_rest(v8: int, maxq: int, n: nat)
    requires
        0 <= v8 <= 255,
        maxq == 31 || maxq == 63,
        n <= 16,
    ensures
        dither_sum(v8, maxq, n) == n * (v8 * maxq / 255) + steps_up(v8 * maxq % 255, n),
    decreases n,
{
    if n > 0 {
        let floor = v8 * maxq / 255;
        sum_by_rest(v8, maxq, (n - 1) as nat);
        dither_by_rest(v8, maxq, n - 1);
        assert(n * floor == (n - 1) * floor + floor) by (nonlinear_arith);
    } else {
        assert(0 * (v8 * maxq / 255) == 0) by (nonlinear_arith);
    }
}

/// The bias of a threshold stays below a step, so a dithered channel is
/// within its levels without being held there.
pub proof fn dither_by_bias(v8: int, maxq: int, t: int)
    requires
        0 <= v8 <= 255,
        maxq == 31 || maxq == 63,
        0 <= t <= 15,
    ensures
        255 * dithered(v8, maxq, t) <= v8 * maxq + (t * 255 + 8) / 16 < 255 * dithered(v8, maxq, t) + 255,
        0 <= dithered(v8, maxq, t) <= maxq,
{
    let scaled = v8 * maxq;
    assert(0 <= scaled <= 255 * maxq);
    let bias = (t * 255 + 8) / 16;
    assert(0 <= bias < 255);
}

/// A dithered channel is the floor, plus one where the bias reaches the
/// next step.
proof fn dither_by_rest(v8: int, maxq: int, t: int)
    requires
        0 <= v8 <= 255,
        maxq == 31 || maxq == 63,
        0 <= t <= 15,
    ensures
        dithered(v8, maxq, t) == v8 * maxq / 255 + step_up(v8 * maxq % 255, (t * 255 + 8) / 16),
{
    let scaled = v8 * maxq;
    assert(0 <= scaled <= 255 * maxq);
    let bias = (t * 255 + 8) / 16;
    assert(0 <= bias < 255);
}

/// The number of thresholds that round up is the rest's share of sixteen,
/// to within half a step.
proof fn steps_follow_the_rest(rest: int)
    requires
        0 <= rest < 255,
    ensures
        -255 * 8 <= steps_up(rest, 16) * 255 - rest * 16 <= 255 * 8,
{
    reveal_with_fuel(steps_up, 17);
}

/// A blend at weight 0 is the destination, at weight 255 the source.
pub proof fn blend_endpoints(dst: u16, src: u16)
    ensures
        mixed565(dst, src, 0).packed() == dst,
        mixed565(dst, src, 255).packed() == src,
{
    packing_round_trip(dst, channels(dst));
    packing_round_trip(src, channels(src));
    assert forall|d: int, s: int| #[trigger] mixed(d, s, 0) == d && #[trigger] mixed(d, s, 255) == s by {
        assert(d * (255 - 0) + s * 0 + 127 == 255 * d + 127) by (nonlinear_arith);
        assert(d * (255 - 255) + s * 255 + 127 == 255 * s + 127) by (nonlinear_arith);
    }
    let (d, s) = (channels(dst), channels(src));
    assert(mixed(d.r, s.r, 0) == d.r && mixed(d.g, s.g, 0) == d.g && mixed(d.b, s.b, 0) == d.b);
    assert(mixed(d.r, s.r, 255) == s.r && mixed(d.g, s.g, 255) == s.g && mixed(d.b, s.b, 255) == s.b);
}

/// A blend is the same from either side: the destination over the source
/// with the rest of the weight.
pub proof fn blend_is_symmetric(dst: u16, src: u16, alpha: u8)
    ensures
        mixed565(dst, src, alpha) == mixed565(src, dst, (255 - alpha) as u8),
{
}

/// Blending with no weight changes nothing; with full weight it paints.
pub proof fn blended_at_the_ends(p: Option<u16>, hit: bool, c: u16)
    ensures
        blended(p, hit, c, 0) == p,
        blended(p, hit, c, 255) == painted(p, hit, c),
{
    if let Some(old) = p {
        blend_endpoints(old, c);
    }
}

/// A blended channel lies between the two it is made of, and within half
/// a step of their weighted mean.
pub proof fn mixed_stays_between(d: int, s: int, a: int)
    requires
        0 <= d,
        0 <= s,
        0 <= a <= 255,
    ensures
        (if d < s { d } else { s }) <= mixed(d, s, a) <= (if d < s { s } else { d }),
        -127 <= 255 * mixed(d, s, a) - (d * (255 - a) + s * a) <= 127,
{
    let lo = if d < s { d } else { s };
    let hi = if d < s { s } else { d };
    assert(255 * lo <= d * (255 - a) + s * a <= 255 * hi) by (nonlinear_arith)
        requires
            lo <= d <= hi,
            lo <= s <= hi,
            0 <= a <= 255,
    ;
}

/// An interpolated value lies between its two ends, and is the first end
/// at 0 and the second at `den`.
pub proof fn lerp_stays_between(a: int, b: int, num: int, den: int)
    requires
        0 <= a,
        0 <= b,
        0 <= num <= den,
        den > 0,
    ensures
        (if a < b { a } else { b }) <= lerp(a, b, num, den) <= (if a < b { b } else { a }),
        lerp(a, b, 0, den) == a,
        lerp(a, b, den, den) == b,
{
    let lo = if a < b { a } else { b };
    let hi = if a < b { b } else { a };
    let x = a * (den - num) + b * num + den / 2;
    assert(lo * den <= a * (den - num) + b * num <= hi * den) by (nonlinear_arith)
        requires
            lo <= a <= hi,
            lo <= b <= hi,
            0 <= num <= den,
    ;
    assert(lo <= x / den <= hi) by (nonlinear_arith)
        requires
            lo * den <= x < hi * den + den,
            den > 0,
    ;
    assert((a * den + den / 2) / den == a) by (nonlinear_arith)
        requires
            den > 0,
    ;
    assert((b * den + den / 2) / den == b) by (nonlinear_arith)
        requires
            den > 0,
    ;
    assert(a * (den - 0) + b * 0 == a * den) by (nonlinear_arith);
    assert(a * (den - den) + b * den == b * den) by (nonlinear_arith);
}

} // verus!
