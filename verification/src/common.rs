//! Numeric transforms shared by all renderers: luminance, saturation and
//! scaling.

use vstd::arithmetic::div_mod::lemma_div_by_multiple;
use vstd::arithmetic::div_mod::lemma_div_is_ordered;
use vstd::arithmetic::div_mod::lemma_fundamental_div_mod_converse;
use vstd::prelude::*;

use crate::raster::Raster;
use crate::raster::Rgb;

verus! {

/// The brightness of a pixel: the unweighted mean of its three channels,
/// rounded down. Black maps to 0 and white to 255.
pub open spec fn luminance(p: Rgb) -> u8 {
    ((p.r + p.g + p.b) / 3) as u8
}

/// Returns the luminance of an RGB pixel using a simple, linear algorithm.
pub fn linear_luma_from_rgb(pixel: &Rgb) -> (l: u8)
    ensures
        l == luminance(*pixel),
{
    let sum: u16 = pixel.r as u16 + pixel.g as u16 + pixel.b as u16;
    (sum / 3) as u8
}

/// The largest of the three channels.
pub open spec fn max_channel(p: Rgb) -> u8 {
    if p.r >= p.g && p.r >= p.b {
        p.r
    } else if p.g >= p.b {
        p.g
    } else {
        p.b
    }
}

/// The fully saturated colour with the hue of `p`: every channel scaled so
/// that the largest becomes exactly 255, fractions rounded down. A black
/// pixel stays black.
pub open spec fn saturated(p: Rgb) -> Rgb {
    let m = max_channel(p);
    if m == 0 {
        Rgb { r: 0, g: 0, b: 0 }
    } else {
        Rgb {
            r: (p.r * 255 / (m as int)) as u8,
            g: (p.g * 255 / (m as int)) as u8,
            b: (p.b * 255 / (m as int)) as u8,
        }
    }
}

/// A channel scaled towards full saturation never leaves `[0, 255]`.
proof fn lemma_scaled_channel_bound(c: u8, m: u8)
    requires
        c <= m,
        m > 0,
    ensures
        0 <= c * 255 / (m as int) <= 255,
{
    assert(c * 255 <= m * 255);
    lemma_div_is_ordered((c * 255) as int, (m * 255) as int, m as int);
    lemma_div_by_multiple(255, m as int);
    assert(m * 255 == 255 * m);
}

/// Returns a saturated copy of the provided pixel.
pub fn saturate(pixel: &Rgb) -> (q: Rgb)
    ensures
        q == saturated(*pixel),
{
    let r = pixel.r;
    let g = pixel.g;
    let b = pixel.b;
    let m: u8 = if r >= g && r >= b {
        r
    } else if g >= b {
        g
    } else {
        b
    };
    if m == 0 {
        return Rgb { r: 0, g: 0, b: 0 };
    }
    proof {
        lemma_scaled_channel_bound(r, m);
        lemma_scaled_channel_bound(g, m);
        lemma_scaled_channel_bound(b, m);
    }
    Rgb {
        r: ((r as u32) * 255 / (m as u32)) as u8,
        g: ((g as u32) * 255 / (m as u32)) as u8,
        b: ((b as u32) * 255 / (m as u32)) as u8,
    }
}

/// The output grid size for a render, derived from the optionally requested
/// width and height and from the source size.
///
/// A terminal cell is assumed to be twice as tall as it is wide, so a
/// height derived from a width is halved, and a width derived from a height
/// is doubled; fractions are rounded down, and the doubled width saturates
/// at `u32::MAX`. When both dimensions are requested they are used as
/// given, and when neither is, the source width is kept and the source
/// height is halved.
pub open spec fn spec_target_dimensions(
    requested_width: Option<u32>,
    requested_height: Option<u32>,
    source_width: u32,
    source_height: u32,
) -> (u32, u32) {
    match (requested_width, requested_height) {
        (Some(w), Some(h)) => (w, h),
        (Some(w), None) => (w, w / 2),
        (None, Some(h)) => ((if h <= u32::MAX / 2 { 2 * h } else { u32::MAX as int }) as u32, h),
        (None, None) => (source_width, source_height / 2),
    }
}

/// Computes the dimensions of the output grid; see
/// [`spec_target_dimensions`] for the policy.
pub fn target_dimensions(
    requested_width: Option<u32>,
    requested_height: Option<u32>,
    source_width: u32,
    source_height: u32,
) -> (dims: (u32, u32))
    ensures
        dims == spec_target_dimensions(
            requested_width,
            requested_height,
            source_width,
            source_height,
        ),
{
    match (requested_width, requested_height) {
        (Some(w), Some(h)) => (w, h),
        (Some(w), None) => (w, w / 2),
        (None, Some(h)) => (if h <= u32::MAX / 2 { 2 * h } else { u32::MAX }, h),
        (None, None) => (source_width, source_height / 2),
    }
}

/// The source pixel that output cell `(x, y)` samples: nearest-neighbour
/// scaling maps each output coordinate back proportionally.
pub open spec fn source_cell(
    grid: Seq<Rgb>,
    source_width: u32,
    source_height: u32,
    out_width: u32,
    out_height: u32,
    x: int,
    y: int,
) -> Rgb {
    grid[(y * source_height / (out_height as int)) * source_width + x * source_width / (
    out_width as int)]
}

/// The grid resampled to `out_width * out_height` cells, row-major.
pub open spec fn resampled(
    grid: Seq<Rgb>,
    source_width: u32,
    source_height: u32,
    out_width: u32,
    out_height: u32,
) -> Seq<Rgb> {
    Seq::new(
        (out_width * out_height) as nat,
        |i: int|
            source_cell(
                grid,
                source_width,
                source_height,
                out_width,
                out_height,
                i % (out_width as int),
                i / (out_width as int),
            ),
    )
}

/// Resizes an image with optional `width` and `height`: the output size
/// follows [`spec_target_dimensions`] and every cell samples its
/// nearest-neighbour source pixel.
#[verifier::loop_isolation(false)]
pub fn resize(dimensions: &(Option<u32>, Option<u32>), image: &Raster) -> (r: Raster)
    requires
        image.wf(),
        image.nonempty(),
    ensures
        r.wf(),
        (r.spec_width(), r.spec_height()) == spec_target_dimensions(
            dimensions.0,
            dimensions.1,
            image.spec_width(),
            image.spec_height(),
        ),
        r.grid() == resampled(
            image.grid(),
            image.spec_width(),
            image.spec_height(),
            r.spec_width(),
            r.spec_height(),
        ),
{
    let sw = image.width();
    let sh = image.height();
    let (ow, oh) = target_dimensions(dimensions.0, dimensions.1, sw, sh);
    let mut px: Vec<Rgb> = Vec::new();
    assert(px@.len() == 0 * (ow as int));
    for y in 0..oh
        invariant
            px@.len() == y * ow,
            forall|i: int|
                0 <= i < px@.len() ==> px@[i] == #[trigger] source_cell(
                    image.grid(),
                    sw,
                    sh,
                    ow,
                    oh,
                    i % (ow as int),
                    i / (ow as int),
                ),
    {
        for x in 0..ow
            invariant
                px@.len() == y * ow + x,
                forall|i: int|
                    0 <= i < px@.len() ==> px@[i] == #[trigger] source_cell(
                        image.grid(),
                        sw,
                        sh,
                        ow,
                        oh,
                        i % (ow as int),
                        i / (ow as int),
                    ),
        {
            proof {
                assert((x as int) * (sw as int) < (ow as int) * (sw as int)) by (nonlinear_arith)
                    requires
                        x < ow,
                        sw >= 1,
                ;
                vstd::arithmetic::div_mod::lemma_multiply_divide_lt(
                    (x as int) * (sw as int),
                    ow as int,
                    sw as int,
                );
                assert((y as int) * (sh as int) < (oh as int) * (sh as int)) by (nonlinear_arith)
                    requires
                        y < oh,
                        sh >= 1,
                ;
                vstd::arithmetic::div_mod::lemma_multiply_divide_lt(
                    (y as int) * (sh as int),
                    oh as int,
                    sh as int,
                );
                assert((x as int) * (sw as int) <= 0xFFFF_FFFF * 0xFFFF_FFFF) by (nonlinear_arith)
                    requires
                        x <= 0xFFFF_FFFF && sw <= 0xFFFF_FFFF,
                ;
                assert((y as int) * (sh as int) <= 0xFFFF_FFFF * 0xFFFF_FFFF) by (nonlinear_arith)
                    requires
                        y <= 0xFFFF_FFFF && sh <= 0xFFFF_FFFF,
                ;
            }
            let sx = ((x as u64) * (sw as u64) / (ow as u64)) as u32;
            let sy = ((y as u64) * (sh as u64) / (oh as u64)) as u32;
            let p = image.get(sx, sy);
            px.push(p);
            proof {
                let i = (y as int) * (ow as int) + (x as int);
                lemma_fundamental_div_mod_converse(i, ow as int, y as int, x as int);
            }
        }
        proof {
            assert(((y as int) + 1) * (ow as int) == (y as int) * (ow as int) + (ow as int))
                by (nonlinear_arith);
        }
    }
    proof {
        assert(px@.len() == (oh as int) * (ow as int));
        assert((oh as int) * (ow as int) == (ow as int) * (oh as int)) by (nonlinear_arith);
        assert(px@ =~= resampled(image.grid(), sw, sh, ow, oh));
    }
    Raster::from_grid(ow, oh, px)
}

} // verus!
