//! Drawing and the panel's commands.

use vstd::prelude::*;
use crate::display::blend::{
    bayer, blended, channels, dither_by_bias, dithered, dithered565, dotted, expand5, expand6, gradient, lerp,
    lerp_stays_between, mixed565, mixed_stays_between, painted, within, BlendClipped, BlendTarget, Channels, Dot,
    Rect,
};
use crate::display::co5300::{band_rows, tile_rows, window, Panel, Rotation, CO5300};

verus! {

// ---- Pixels -----------------------------------------------------------------

/// A packed pixel has red as its top five bits, green as the six below,
/// blue as the low five.
pub proof fn packing_by_bits(c: u16, ch: Channels)
    requires
        ch.in_range(),
    ensures
        ch.packed() as int / 2048 == ch.r,
        ch.packed() as int / 32 % 64 == ch.g,
        ch.packed() as int % 32 == ch.b,
        channels(c).r * 2048 + channels(c).g * 32 + channels(c).b == c,
        channels(c).in_range(),
{
}

/// An expanded channel repeats its top bits below itself, and is within
/// one of the same share of full scale.
pub proof fn expansion_is_proportional(c: int)
    ensures
        0 <= c < 32 ==> expand5(c) / 8 == c && expand5(c) % 8 == c / 4 && -31 <= 31 * expand5(c) - 255 * c <= 31,
        0 <= c < 64 ==> expand6(c) / 4 == c && expand6(c) % 4 == c / 16 && -63 <= 63 * expand6(c) - 255 * c <= 63,
{
}

/// An interpolated value is within half a step of the exact linear one.
pub proof fn lerp_is_nearest(a: int, b: int, num: int, den: int)
    requires
        den > 0,
    ensures
        2 * (den * lerp(a, b, num, den) - (a * (den - num) + b * num)) <= den,
        2 * (den * lerp(a, b, num, den) - (a * (den - num) + b * num)) >= -den,
{
    let x = a * (den - num) + b * num + den / 2;
    vstd::arithmetic::div_mod::lemma_fundamental_div_mod(x, den);
    vstd::arithmetic::div_mod::lemma_mod_bound(x, den);
}

/// The further along, the nearer to the second end.
pub proof fn lerp_is_monotone(a: int, b: int, num1: int, num2: int, den: int)
    requires
        den > 0,
        0 <= num1 <= num2 <= den,
    ensures
        a <= b ==> lerp(a, b, num1, den) <= lerp(a, b, num2, den),
        a >= b ==> lerp(a, b, num1, den) >= lerp(a, b, num2, den),
{
    let x1 = a * (den - num1) + b * num1 + den / 2;
    let x2 = a * (den - num2) + b * num2 + den / 2;
    assert(x2 - x1 == (b - a) * (num2 - num1)) by (nonlinear_arith)
        requires
            x1 == a * (den - num1) + b * num1 + den / 2,
            x2 == a * (den - num2) + b * num2 + den / 2,
    ;
    if a <= b {
        assert((b - a) * (num2 - num1) >= 0) by (nonlinear_arith)
            requires
                b >= a,
                num2 >= num1,
        ;
        vstd::arithmetic::div_mod::lemma_div_is_ordered(x1, x2, den);
    }
    if a >= b {
        assert((b - a) * (num2 - num1) <= 0) by (nonlinear_arith)
            requires
                b <= a,
                num2 >= num1,
        ;
        vstd::arithmetic::div_mod::lemma_div_is_ordered(x2, x1, den);
    }
}

/// A blended pixel is, in each channel on its own, within half a step of
/// the weighted mean of the two.
pub proof fn blend_is_nearest_in_each_channel(dst: u16, src: u16, alpha: u8)
    ensures
        ({
            let c = mixed565(dst, src, alpha).packed() as int;
            let (d, s, a) = (dst as int, src as int, alpha as int);
            &&& -127 <= 255 * (c / 2048) - (d / 2048 * (255 - a) + s / 2048 * a) <= 127
            &&& -127 <= 255 * (c / 32 % 64) - (d / 32 % 64 * (255 - a) + s / 32 % 64 * a) <= 127
            &&& -127 <= 255 * (c % 32) - (d % 32 * (255 - a) + s % 32 * a) <= 127
        }),
{
    let (d, s, a) = (channels(dst), channels(src), alpha as int);
    mixed_stays_between(d.r, s.r, a);
    mixed_stays_between(d.g, s.g, a);
    mixed_stays_between(d.b, s.b, a);
    packing_by_bits(0, mixed565(dst, src, alpha));
}

/// The thresholds are those of the ordered 4x4 pattern that is built from
/// the 2x2 pattern 0, 2 / 3, 1, in every block of the plane.
pub proof fn thresholds_by_construction(x: int, y: int)
    ensures
        ({
            let two = |i: int, j: int| 2 * ((i + j) % 2) + j;
            bayer(x, y) == 4 * two(x % 2, y % 2) + two(x % 4 / 2, y % 4 / 2)
        }),
{
}

/// A channel rounds up exactly from the threshold on at which bias and
/// rest make up a step, so that the share of pixels rounded up is the
/// rest's share of the step.
pub proof fn dither_rounds_by_the_rest(v8: int, maxq: int, t: int)
    requires
        0 <= v8 <= 255,
        maxq == 31 || maxq == 63,
        0 <= t <= 15,
    ensures
        255 * dithered(v8, maxq, t) <= v8 * maxq + (t * 255 + 8) / 16,
        v8 * maxq + (t * 255 + 8) / 16 < 255 * dithered(v8, maxq, t) + 255,
        0 <= dithered(v8, maxq, t) <= maxq,
{
    dither_by_bias(v8, maxq, t);
}

/// The three channels of a dithered colour are dithered on their own, to
/// 32, 64 and 32 levels.
pub proof fn dither_by_channel(r8: int, g8: int, b8: int, t: int)
    requires
        0 <= r8 <= 255,
        0 <= g8 <= 255,
        0 <= b8 <= 255,
        0 <= t <= 15,
    ensures
        dithered565(r8, g8, b8, t).packed() as int / 2048 == dithered(r8, 31, t),
        dithered565(r8, g8, b8, t).packed() as int / 32 % 64 == dithered(g8, 63, t),
        dithered565(r8, g8, b8, t).packed() as int % 32 == dithered(b8, 31, t),
{
    dither_by_bias(r8, 31, t);
    dither_by_bias(g8, 63, t);
    dither_by_bias(b8, 31, t);
    packing_by_bits(0, dithered565(r8, g8, b8, t));
}

/// `q` of `levels` is, at threshold `t`, an 8-bit value that is within
/// half a step of the linear one between `a` and `b`.
pub open spec fn on_the_ramp(q: int, levels: int, a: int, b: int, num: int, den: int, t: int) -> bool {
    exists|e: int|
        0 <= e <= 255 && q == #[trigger] dithered(e, levels, t) && -den <= 2 * (den * e - (a * (den - num) + b * num))
            <= den
}

/// Every row of a gradient has the colour that its share of the way from
/// top to bottom asks for, in each channel, dithered by the pixel's
/// threshold. Row `y` is the first, row `y + h - 1` the last.
pub proof fn gradient_follows_the_ramp(u: int, v: int, y: int, h: int, top: Channels, bottom: Channels)
    requires
        top.in_range(),
        bottom.in_range(),
        h >= 2,
        y <= v < y + h,
    ensures
        ({
            let c = gradient(u, v, y, h, top, bottom) as int;
            let (num, den) = (v - y, h - 1);
            let t = bayer(u, v);
            &&& on_the_ramp(c / 2048, 31, expand5(top.r), expand5(bottom.r), num, den, t)
            &&& on_the_ramp(c / 32 % 64, 63, expand6(top.g), expand6(bottom.g), num, den, t)
            &&& on_the_ramp(c % 32, 31, expand5(top.b), expand5(bottom.b), num, den, t)
        }),
{
    let (num, den) = (v - y, h - 1);
    let t = bayer(u, v);
    let (tr, br) = (expand5(top.r), expand5(bottom.r));
    let (tg, bg) = (expand6(top.g), expand6(bottom.g));
    let (tb, bb) = (expand5(top.b), expand5(bottom.b));
    lerp_is_nearest(tr, br, num, den);
    lerp_is_nearest(tg, bg, num, den);
    lerp_is_nearest(tb, bb, num, den);
    lerp_stays_between(tr, br, num, den);
    lerp_stays_between(tg, bg, num, den);
    lerp_stays_between(tb, bb, num, den);
    let (r8, g8, b8) = (lerp(tr, br, num, den), lerp(tg, bg, num, den), lerp(tb, bb, num, den));
    dither_by_channel(r8, g8, b8, t);
    let c = gradient(u, v, y, h, top, bottom) as int;
    assert(c / 2048 == dithered(r8, 31, t));
    assert(c / 32 % 64 == dithered(g8, 63, t));
    assert(c % 32 == dithered(b8, 31, t));
}

/// A gradient of one row is its top colour.
pub proof fn single_row_is_the_top(u: int, y: int, top: Channels, bottom: Channels)
    requires
        top.in_range(),
        bottom.in_range(),
    ensures
        gradient(u, y, y, 1, top, bottom) == dithered565(
            expand5(top.r),
            expand6(top.g),
            expand5(top.b),
            bayer(u, y),
        ).packed(),
{
    lerp_stays_between(expand5(top.r), expand5(bottom.r), 0, 1);
    lerp_stays_between(expand6(top.g), expand6(bottom.g), 0, 1);
    lerp_stays_between(expand5(top.b), expand5(bottom.b), 0, 1);
}

// ---- Targets ----------------------------------------------------------------

/// What drawing makes of a pixel: it is replaced, or blended, where it is
/// hit, stays as it was where it is not, and never appears where the
/// target has none.
pub proof fn drawing_hits_or_keeps(p: Option<u16>, c: u16, alpha: u8, hit: bool)
    ensures
        p is None ==> painted(p, hit, c) is None && blended(p, hit, c, alpha) is None,
        p is Some && !hit ==> painted(p, hit, c) == p && blended(p, hit, c, alpha) == p,
        p is Some && hit ==> painted(p, hit, c) == Some(c),
        p matches Some(old) ==> hit ==> blended(p, hit, c, alpha) == Some(mixed565(old, c, alpha).packed()),
{
}

/// Of dots drawn one after another the last one at a place stays; a place
/// without a dot keeps its pixel.
pub proof fn last_dot_stays(p: Option<u16>, u: int, v: int, dots: Seq<Dot>, k: int)
    requires
        p is Some,
        0 <= k < dots.len(),
        dots[k].x == u && dots[k].y == v,
        forall|j: int| k < j < dots.len() ==> !(#[trigger] dots[j].x == u && dots[j].y == v),
    ensures
        dotted(p, u, v, dots) == Some(dots[k].color@.packed()),
    decreases dots.len(),
{
    let rest = dots.drop_last();
    if k == dots.len() - 1 {
        dots_stay_present(p, u, v, rest);
    } else {
        assert(!(dots[dots.len() - 1].x == u && dots[dots.len() - 1].y == v));
        assert forall|j: int| k < j < rest.len() implies !(#[trigger] rest[j].x == u && rest[j].y == v) by {
            assert(rest[j] == dots[j]);
        }
        last_dot_stays(p, u, v, rest, k);
    }
}

proof fn dots_stay_present(p: Option<u16>, u: int, v: int, dots: Seq<Dot>)
    requires
        p is Some,
    ensures
        dotted(p, u, v, dots) is Some,
    decreases dots.len(),
{
    if dots.len() > 0 {
        dots_stay_present(p, u, v, dots.drop_last());
    }
}

/// A place that no dot hits keeps its pixel.
pub proof fn untouched_place_stays(p: Option<u16>, u: int, v: int, dots: Seq<Dot>)
    requires
        forall|j: int| 0 <= j < dots.len() ==> !(#[trigger] dots[j].x == u && dots[j].y == v),
    ensures
        dotted(p, u, v, dots) == p,
    decreases dots.len(),
{
    if dots.len() > 0 {
        let rest = dots.drop_last();
        assert forall|j: int| 0 <= j < rest.len() implies !(#[trigger] rest[j].x == u && rest[j].y == v) by {
            assert(rest[j] == dots[j]);
        }
        assert(!(dots[dots.len() - 1].x == u && dots[dots.len() - 1].y == v));
        untouched_place_stays(p, u, v, rest);
    }
}

/// A rectangle of `w` by `h` has that many columns and rows, from its
/// corner on, and nothing left of or above it.
pub proof fn rectangle_by_edges(r: Rect, u: int, v: int)
    ensures
        r.has(u, v) <==> 0 <= u - r.x < r.w && 0 <= v - r.y < r.h,
        within(u, v, r.x as int, r.y as int, r.w as int, r.h as int) <==> r.has(u, v),
{
}

/// Through a clip a pixel is seen, and drawn, exactly where the clip has
/// it.
pub proof fn clip_shows_what_it_has<'a, D: BlendTarget>(c: BlendClipped<'a, D>, u: int, v: int)
    ensures
        c.clip.has(u, v) ==> c.pixel(u, v) == old(c.parent).pixel(u, v),
        !c.clip.has(u, v) ==> c.pixel(u, v) is None,
        c.bounds() == c.clip,
{
}

/// Where a pixel stands in the framebuffer: 820 bytes a row, two bytes a
/// column, the high byte first; the rows are the panel's from the tile's
/// first one on.
pub proof fn framebuffer_layout<'fb>(d: CO5300<'fb>, u: int, v: int)
    ensures
        0 <= u < 410 && d.top() <= v < d.top() + d.rows() ==> d.at(u, v) is Some,
        !(0 <= u < 410 && d.top() <= v < d.top() + d.rows()) ==> d.at(u, v) is None,
        d.at(u, v) matches Some(c) ==> c as int / 256 == d.bytes()[820 * (v - d.top()) + 2 * u] && c as int % 256
            == d.bytes()[820 * (v - d.top()) + 2 * u + 1],
        d.pixel(u, v) == d.at(u, v),
        d.bounds() == (Rect { x: 0, y: 0, w: 410, h: 502 }),
{
}

/// A blit goes row by row: the next column has the next value, the next
/// row the value `w` on, and the corner the first one.
pub proof fn blit_goes_row_by_row(u: int, v: int, x: int, y: int, w: int)
    ensures
        CO5300::source(x, y, x, y, w) == 0,
        CO5300::source(u + 1, v, x, y, w) == CO5300::source(u, v, x, y, w) + 1,
        CO5300::source(u, v + 1, x, y, w) == CO5300::source(u, v, x, y, w) + w,
{
    assert((v + 1 - y) * w == (v - y) * w + w) by (nonlinear_arith);
    assert((y - y) * w == 0) by (nonlinear_arith);
}

// ---- Panel ------------------------------------------------------------------

/// `p` are the numbers `first` and `last` in two bytes each, the high one
/// first.
pub open spec fn names_range(p: Seq<u8>, first: int, last: int) -> bool {
    p.len() == 4 && p[0] * 256 + p[1] == first && p[2] * 256 + p[3] == last
}

/// A window is selected by its columns (0x2A), 22 further right in the
/// controller's memory, and then its rows (0x2B), first and last of each.
pub proof fn window_commands(x: int, y: int, w: int, h: int)
    requires
        0 <= x,
        0 <= y,
        0 < w,
        0 < h,
        x + w + 21 <= 0xFFFF,
        y + h - 1 <= 0xFFFF,
    ensures
        window(x, y, w, h).len() == 2,
        window(x, y, w, h)[0] matches Panel::Command { command, params } && command == 0x2A && names_range(
            params,
            x + 22,
            x + 22 + w - 1,
        ),
        window(x, y, w, h)[1] matches Panel::Command { command, params } && command == 0x2B && names_range(
            params,
            y,
            y + h - 1,
        ),
{
}

/// A push selects the whole width of its rows and then writes exactly
/// their bytes of the framebuffer.
pub proof fn push_writes_its_rows(y: int, first: int, h: int)
    ensures
        CO5300::push(y, first, h).len() == 3,
        CO5300::push(y, first, h).take(2) == window(0, y, 410, h),
        CO5300::push(y, first, h)[2] == (Panel::Pixels { first: true, start: 820 * first, end: 820 * first + 820 * h }),
{
    assert(CO5300::push(y, first, h).take(2) =~= window(0, y, 410, h));
}

/// A tile shows as many of its rows as the panel has left, from its first
/// one on.
pub proof fn tile_rows_are_what_is_left(top: int, rows: int)
    requires
        0 <= top,
        0 <= rows,
    ensures
        tile_rows(top, rows).0 == top,
        0 <= tile_rows(top, rows).1 <= rows,
        top < 502 ==> top + tile_rows(top, rows).1 <= 502,
        top < 502 ==> tile_rows(top, rows).1 == rows || top + tile_rows(top, rows).1 == 502,
        top >= 502 ==> tile_rows(top, rows).1 == 0,
{
}

/// A band reaches at most one row further than asked at either end.
pub proof fn band_is_hardly_larger(y0: int, y1: int, rows: int)
    requires
        0 <= y0 < y1,
        y0 < rows,
    ensures
        ({
            let (first, n) = band_rows(y0, y1, rows);
            &&& y0 - 1 <= first <= y0 && first % 2 == 0
            &&& first + n <= rows
            &&& first + n <= y1 + 1
            &&& first + n >= y1 || first + n == rows
        }),
{
}

/// Mirroring: bit 6 for the columns, bit 7 for the rows, nothing else;
/// half a turn is both.
pub proof fn rotations_by_bit(r: Rotation)
    ensures
        (r.madctl() as int / 64 % 2 == 1) == (r is MirrorX || r is Deg180),
        (r.madctl() as int / 128 == 1) == (r is MirrorY || r is Deg180),
        r.madctl() as int % 64 == 0,
{
}

} // verus!
