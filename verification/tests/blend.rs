use uhrwerk::display::blend::{blend565, dither_channel, expand565, lerp8, scale565};

#[test]
fn expand_full_scale() {
    assert_eq!(expand565(0xFFFF), (255, 255, 255));
    assert_eq!(expand565(0x0000), (0, 0, 0));
}

#[test]
fn dither_outputs_floor_or_ceil_and_averages() {
    // For every channel value, the 16 dithered outputs must all be the
    // floor or ceil of the ideal quantization, and their mean must land
    // within half a step of the ideal value.
    for maxq in [31u32, 63] {
        for v8 in 0..=255u32 {
            let ideal_num = v8 * maxq; // ideal = ideal_num / 255
            let floor = ideal_num / 255;
            let ceil = floor + if ideal_num % 255 == 0 { 0 } else { 1 };
            let mut sum = 0u32;
            for t in 0..16u32 {
                let q = dither_channel(v8, maxq, t) as u32;
                assert!(q == floor || q == ceil, "v8={v8} maxq={maxq} t={t} q={q}");
                sum += q;
            }
            // mean*255*16 vs ideal*16*255: allow half a step (255*8).
            let mean_num = sum * 255; // = mean * 16 * 255
            let ideal16 = ideal_num * 16;
            let diff = mean_num.abs_diff(ideal16);
            assert!(diff <= 255 * 8, "v8={v8} maxq={maxq} mean off by {diff}");
        }
    }
}

#[test]
fn dither_rises_with_the_threshold() {
    for maxq in [31u32, 63] {
        for v8 in 0..=255u32 {
            for t in 0..15u32 {
                assert!(dither_channel(v8, maxq, t) <= dither_channel(v8, maxq, t + 1));
            }
        }
    }
    assert_eq!((dither_channel(4, 31, 0), dither_channel(4, 31, 15)), (0, 1));
}

#[test]
fn blend_is_the_same_from_either_side() {
    let (dst, src) = (0b01010_101010_01010, 0b11111_000000_11111);
    for alpha in 0..=255u8 {
        assert_eq!(blend565(dst, src, alpha), blend565(src, dst, 255 - alpha));
    }
}

#[test]
fn blend_endpoints() {
    let dst = 0b01010_101010_01010;
    let src = 0b11111_000000_11111;
    assert_eq!(blend565(dst, src, 0), dst);
    assert_eq!(blend565(dst, src, 255), src);
    assert_eq!(scale565(src, 0), 0);
    assert_eq!(scale565(src, 255), src);
}

#[test]
fn blend_midpoint_rounds() {
    // 50% between 0 and max must round to the upper middle for odd
    // ranges: (0*128 + 31*127)/255 with +127 rounding = 15..16.
    let mid = blend565(0, 0xFFFF, 128);
    let r = (mid >> 11) & 0x1F;
    let g = (mid >> 5) & 0x3F;
    let b = mid & 0x1F;
    assert!((15..=16).contains(&r));
    assert!((31..=32).contains(&g));
    assert!((15..=16).contains(&b));
}

#[test]
fn lerp_endpoints_and_middle() {
    assert_eq!(lerp8(10, 250, 0, 100), 10);
    assert_eq!(lerp8(10, 250, 100, 100), 250);
    assert_eq!(lerp8(0, 200, 50, 100), 100);
}
