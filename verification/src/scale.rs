//! Aspect-preserving nearest-neighbor scaling of a normalized frame
//! to a target output resolution class.

use vstd::prelude::*;
use vstd::arithmetic::div_mod::{
    lemma_div_by_multiple, lemma_div_is_ordered, lemma_div_pos_is_pos, lemma_fundamental_div_mod,
    lemma_mod_bound,
};
use vstd::arithmetic::mul::{
    lemma_mul_inequality, lemma_mul_is_commutative, lemma_mul_is_distributive_add_other_way,
    lemma_mul_upper_bound,
};

use crate::ascii;

verus! {

/// The output resolution classes a capture session can ask for.
/// `Captured` means no scaling: frames pass through at the size the
/// source delivered them.
#[derive(Clone, Copy, Debug, PartialEq, Eq, Structural)]
pub enum Resolution {
    Captured,
    P480,
    P720,
    P1080,
    P1440,
    P2160,
    P4320,
}

/// The fixed target width of a scaling resolution class.
pub open spec fn base_width(res: Resolution) -> int {
    match res {
        Resolution::Captured => 0,
        Resolution::P480 => 640,
        Resolution::P720 => 1280,
        Resolution::P1080 => 1920,
        Resolution::P1440 => 2560,
        Resolution::P2160 => 3840,
        Resolution::P4320 => 7680,
    }
}

/// The scaled target height for a resolution class and a source of
/// `src_w` by `src_h`: the class width divided by the source aspect
/// ratio, rounded down, clamped to the representable range and to a
/// floor of one row. A source without a valid aspect ratio (zero
/// width or height) gets the floor.
pub open spec fn target_height(res: Resolution, src_w: u32, src_h: u32) -> int {
    let ideal = if src_w == 0 {
        0int
    } else {
        base_width(res) * src_h / src_w as int
    };
    if ideal < 1 {
        1int
    } else if ideal > u32::MAX {
        u32::MAX as int
    } else {
        ideal
    }
}

/// Target dimensions for a resolution class applied to a source of
/// `src_w` by `src_h`; `Captured` asks for no scaling at all.
pub fn resolution_target_size(res: Resolution, src_w: u32, src_h: u32) -> (r: Option<(u32, u32)>)
    ensures
        r is Some <==> !(res is Captured),
        r matches Some(size) ==> size.0 == base_width(res) && size.1 == target_height(
            res,
            src_w,
            src_h,
        ),
{
    let base_w: u32 = match res {
        Resolution::Captured => {
            return None;
        },
        Resolution::P480 => 640,
        Resolution::P720 => 1280,
        Resolution::P1080 => 1920,
        Resolution::P1440 => 2560,
        Resolution::P2160 => 3840,
        Resolution::P4320 => 7680,
    };
    let ideal: u64 = if src_w == 0 {
        0
    } else {
        proof {
            lemma_mul_upper_bound(base_w as int, 7680, src_h as int, u32::MAX as int);
        }
        (base_w as u64) * (src_h as u64) / (src_w as u64)
    };
    let h: u32 = if ideal < 1 {
        1
    } else if ideal > u32::MAX as u64 {
        u32::MAX
    } else {
        ideal as u32
    };
    Some((base_w, h))
}

/// The resolution class a stored setting name stands for; any unknown
/// name falls back to `Captured`.
pub open spec fn resolution_of(s: Seq<char>) -> Resolution {
    if s == "480p"@ {
        Resolution::P480
    } else if s == "720p"@ {
        Resolution::P720
    } else if s == "1080p"@ {
        Resolution::P1080
    } else if s == "1440p"@ {
        Resolution::P1440
    } else if s == "2160p"@ {
        Resolution::P2160
    } else if s == "4320p"@ {
        Resolution::P4320
    } else {
        Resolution::Captured
    }
}

/// Parses a stored resolution setting into its class.
pub fn resolution_from_str(s: &str) -> (r: Resolution)
    ensures
        r == resolution_of(s@),
{
    if ascii::str_eq(s, "480p") {
        Resolution::P480
    } else if ascii::str_eq(s, "720p") {
        Resolution::P720
    } else if ascii::str_eq(s, "1080p") {
        Resolution::P1080
    } else if ascii::str_eq(s, "1440p") {
        Resolution::P1440
    } else if ascii::str_eq(s, "2160p") {
        Resolution::P2160
    } else if ascii::str_eq(s, "4320p") {
        Resolution::P4320
    } else {
        Resolution::Captured
    }
}

/// Whether nearest-neighbor sampling is impossible: a source or
/// destination extent of zero. Such a request still yields a buffer
/// of the destination size, filled with black.
pub open spec fn scale_degenerate(src_w: u32, src_h: u32, dst_w: u32, dst_h: u32) -> bool {
    src_w == 0 || src_h == 0 || dst_w == 0 || dst_h == 0
}

/// The source coordinate sampled for destination coordinate `d`:
/// `d * (src_extent - 1) / dst_extent`, integer division.
pub open spec fn sample_coord(d: int, src_extent: int, dst_extent: int) -> int {
    d * (src_extent - 1) / dst_extent
}

/// The pixel placed at destination `(x, y)`: the nearest source
/// sample, or black when the computed index falls outside the source
/// buffer (a short buffer never faults the scaler).
pub open spec fn sampled_pixel(
    src: Seq<u32>,
    src_w: u32,
    src_h: u32,
    dst_w: u32,
    dst_h: u32,
    x: int,
    y: int,
) -> u32 {
    let sx = sample_coord(x, src_w as int, dst_w as int);
    let sy = sample_coord(y, src_h as int, dst_h as int);
    if sy * src_w + sx < src.len() {
        src[sy * src_w + sx]
    } else {
        0u32
    }
}

/// The whole scaled buffer as one sequence: row-major destination
/// pixels, each the nearest source sample, or black throughout when
/// the extents are degenerate.
pub open spec fn scaled_buffer(
    src: Seq<u32>,
    src_w: u32,
    src_h: u32,
    dst_w: u32,
    dst_h: u32,
) -> Seq<u32> {
    Seq::new(
        (dst_w * dst_h) as nat,
        |k: int|
            if scale_degenerate(src_w, src_h, dst_w, dst_h) {
                0u32
            } else {
                sampled_pixel(src, src_w, src_h, dst_w, dst_h, k % (dst_w as int), k / (dst_w as int))
            },
    )
}

/// Bounds the sampled source coordinate: for `d < dst_extent` the
/// sample stays inside the source extent.
proof fn lemma_sample_coord_bound(d: int, src_extent: int, dst_extent: int)
    requires
        0 <= d < dst_extent,
        src_extent >= 1,
    ensures
        0 <= sample_coord(d, src_extent, dst_extent) <= src_extent - 1,
{
    lemma_mul_inequality(d, dst_extent, src_extent - 1);
    lemma_div_is_ordered(d * (src_extent - 1), dst_extent * (src_extent - 1), dst_extent);
    lemma_mul_is_commutative(dst_extent, src_extent - 1);
    lemma_div_by_multiple(src_extent - 1, dst_extent);
    vstd::arithmetic::div_mod::lemma_div_pos_is_pos(d * (src_extent - 1), dst_extent);
    vstd::arithmetic::mul::lemma_mul_nonnegative(d, src_extent - 1);
}

/// Nearest-neighbor resize of a packed-pixel buffer from `src_w` by
/// `src_h` to `dst_w` by `dst_h`.
///
/// The result always has one entry per destination pixel. Degenerate
/// extents yield an all-black buffer; otherwise each destination
/// pixel is the nearest source sample, with black standing in for
/// any out-of-range index.
pub fn resize_frame(src_w: u32, src_h: u32, src: &[u32], dst_w: u32, dst_h: u32) -> (r: Vec<u32>)
    ensures
        r@.len() == dst_w * dst_h,
        r@ == scaled_buffer(src@, src_w, src_h, dst_w, dst_h),
        scale_degenerate(src_w, src_h, dst_w, dst_h) ==> forall|i: int|
            0 <= i < r@.len() ==> r@[i] == 0,
        !scale_degenerate(src_w, src_h, dst_w, dst_h) ==> forall|x: int, y: int|
            0 <= x < dst_w && 0 <= y < dst_h ==> r@[y * dst_w + x] == sampled_pixel(
                src@,
                src_w,
                src_h,
                dst_w,
                dst_h,
                x,
                y,
            ),
{
    let mut out: Vec<u32> = Vec::new();
    let degenerate = src_w == 0 || src_h == 0 || dst_w == 0 || dst_h == 0;
    let mut y: u32 = 0;
    while y < dst_h
        invariant
            y <= dst_h,
            out@.len() == y * dst_w,
            degenerate == scale_degenerate(src_w, src_h, dst_w, dst_h),
            degenerate ==> forall|i: int| 0 <= i < out@.len() ==> out@[i] == 0,
            !degenerate ==> forall|yy: int, xx: int|
                0 <= yy < y && 0 <= xx < dst_w ==> out@[yy * dst_w + xx] == sampled_pixel(
                    src@,
                    src_w,
                    src_h,
                    dst_w,
                    dst_h,
                    xx,
                    yy,
                ),
        decreases dst_h - y,
    {
        let mut x: u32 = 0;
        while x < dst_w
            invariant
                y < dst_h,
                x <= dst_w,
                out@.len() == y * dst_w + x,
                degenerate == scale_degenerate(src_w, src_h, dst_w, dst_h),
                degenerate ==> forall|i: int| 0 <= i < out@.len() ==> out@[i] == 0,
                !degenerate ==> forall|yy: int, xx: int|
                    0 <= yy < y && 0 <= xx < dst_w ==> out@[yy * dst_w + xx] == sampled_pixel(
                        src@,
                        src_w,
                        src_h,
                        dst_w,
                        dst_h,
                        xx,
                        yy,
                    ),
                !degenerate ==> forall|xx: int|
                    0 <= xx < x ==> out@[y * dst_w + xx] == sampled_pixel(
                        src@,
                        src_w,
                        src_h,
                        dst_w,
                        dst_h,
                        xx,
                        y as int,
                    ),
            decreases dst_w - x,
        {
            let px: u32 = if degenerate {
                0
            } else {
                proof {
                    lemma_sample_coord_bound(x as int, src_w as int, dst_w as int);
                    lemma_sample_coord_bound(y as int, src_h as int, dst_h as int);
                    lemma_mul_upper_bound(x as int, u32::MAX as int, (src_w - 1) as int, u32::MAX as int);
                    lemma_mul_upper_bound(y as int, u32::MAX as int, (src_h - 1) as int, u32::MAX as int);
                    lemma_mul_upper_bound(
                        sample_coord(y as int, src_h as int, dst_h as int),
                        u32::MAX as int,
                        src_w as int,
                        u32::MAX as int,
                    );
                }
                let sx: u64 = (x as u64) * ((src_w - 1) as u64) / (dst_w as u64);
                let sy: u64 = (y as u64) * ((src_h - 1) as u64) / (dst_h as u64);
                let idx: u64 = sy * (src_w as u64) + sx;
                if idx < src.len() as u64 {
                    src[idx as usize]
                } else {
                    0
                }
            };
            out.push(px);
            x = x + 1;
            proof {
                assert(out@.len() == y * dst_w + x);
                if !degenerate {
                    assert forall|yy: int, xx: int|
                        0 <= yy < y && 0 <= xx < dst_w implies out@[yy * dst_w + xx]
                        == sampled_pixel(src@, src_w, src_h, dst_w, dst_h, xx, yy) by {
                        lemma_mul_inequality(yy + 1, y as int, dst_w as int);
                        lemma_mul_is_distributive_add_other_way(dst_w as int, yy, 1);
                    }
                }
            }
        }
        y = y + 1;
        proof {
            lemma_mul_is_distributive_add_other_way(dst_w as int, y as int - 1, 1);
            lemma_mul_is_commutative(y as int - 1, dst_w as int);
            lemma_mul_is_commutative(y as int, dst_w as int);
            assert(out@.len() == y * dst_w);
        }
    }
    proof {
        lemma_mul_is_commutative(dst_h as int, dst_w as int);
        let target = scaled_buffer(src@, src_w, src_h, dst_w, dst_h);
        assert forall|k: int| 0 <= k < out@.len() implies out@[k] == target[k] by {
            if !scale_degenerate(src_w, src_h, dst_w, dst_h) {
                let yy = k / (dst_w as int);
                let xx = k % (dst_w as int);
                lemma_fundamental_div_mod(k, dst_w as int);
                lemma_mod_bound(k, dst_w as int);
                lemma_div_pos_is_pos(k, dst_w as int);
                lemma_mul_is_commutative(yy, dst_w as int);
                if yy >= dst_h {
                    lemma_mul_inequality(dst_h as int, yy, dst_w as int);
                }
            }
        }
        assert(out@ =~= target);
    }
    out
}

} // verus!
