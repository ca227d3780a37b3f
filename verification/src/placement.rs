//! The placement calculator: from the size of a bitmap, the size of the
//! viewport and a scale policy to the rectangle that is painted and the
//! rectangle of the bitmap that is read.
//!
//! All of it is integer arithmetic. The scale of `FitCenter` is the smaller of
//! the two ratios `viewport / source`; the ratios are compared by cross
//! multiplication and the scaled extent is rounded toward zero, so that no
//! rounding error of a floating-point ratio can reach the result.

use vstd::prelude::*;
use crate::geometry::{Placement, Rect, Size};
use crate::policy::ScalePolicy;

verus! {

/// The horizontal ratio `viewport.width / source.width` is not larger than the
/// vertical one, so the width is what limits a uniform scale.
pub open spec fn width_limits(source: Size, viewport: Size) -> bool {
    viewport.width * source.height <= viewport.height * source.width
}

/// The width of the largest scaled copy of `source` that fits in `viewport`
/// with its proportions kept, rounded toward zero.
pub open spec fn fit_width(source: Size, viewport: Size) -> int
    recommends
        !source.is_degenerate(),
{
    if width_limits(source, viewport) {
        viewport.width as int
    } else {
        (source.width * viewport.height) / (source.height as int)
    }
}

/// The height of the largest scaled copy of `source` that fits in `viewport`
/// with its proportions kept, rounded toward zero.
pub open spec fn fit_height(source: Size, viewport: Size) -> int
    recommends
        !source.is_degenerate(),
{
    if width_limits(source, viewport) {
        (source.height * viewport.width) / (source.width as int)
    } else {
        viewport.height as int
    }
}

/// Scale to fit: the whole bitmap, scaled by the smaller ratio and centred in
/// the viewport.
pub open spec fn fit_center_spec(source: Size, viewport: Size) -> Placement
    recommends
        !source.is_degenerate(),
{
    let w = fit_width(source, viewport);
    let h = fit_height(source, viewport);
    Placement {
        dest: Rect::of((viewport.width - w) / 2, (viewport.height - h) / 2, w, h),
        source: Rect::of(0, 0, source.width as int, source.height as int),
    }
}

/// The smaller of two extents.
pub open spec fn smaller(a: u32, b: u32) -> int {
    if a <= b {
        a as int
    } else {
        b as int
    }
}

/// Where a centred window of `window` pixels starts on an axis of `extent`
/// pixels: half of what is left over, and 0 where the window is no shorter
/// than the axis.
pub open spec fn centered_start(extent: u32, window: u32) -> int {
    if extent > window {
        (extent - window) / 2
    } else {
        0
    }
}

/// Centre crop: the middle of the bitmap, pixel for pixel, painted from the
/// origin of the viewport. On each axis the extent is the smaller of the
/// bitmap's and the viewport's.
pub open spec fn crop_center_spec(source: Size, viewport: Size) -> Placement {
    let w = smaller(source.width, viewport.width);
    let h = smaller(source.height, viewport.height);
    Placement {
        dest: Rect::of(0, 0, w, h),
        source: Rect::of(
            centered_start(source.width, viewport.width),
            centered_start(source.height, viewport.height),
            w,
            h,
        ),
    }
}

/// The placement of a bitmap of size `source` in a viewport of size
/// `viewport`. A bitmap without pixels gives the placement that draws
/// nothing. A bitmap with pixels is placed by the rule of the policy in every
/// viewport; in a viewport without pixels that rule gives a destination
/// without pixels.
pub open spec fn placement_of(source: Size, viewport: Size, policy: ScalePolicy) -> Placement {
    if source.is_degenerate() {
        Placement::nothing()
    } else {
        match policy {
            ScalePolicy::FitCenter => fit_center_spec(source, viewport),
            ScalePolicy::CropCenter => crop_center_spec(source, viewport),
        }
    }
}

/// The proportions of `dest` are those of `source` up to the rounding of one
/// pixel: the width differs by less than one pixel from the width that the
/// height calls for, and the height by less than one pixel from the height
/// that the width calls for.
pub open spec fn keeps_proportions(source: Size, dest: Rect) -> bool {
    -(source.height as int) < dest.width * source.height - dest.height * source.width
        < source.width as int
}

/// The scaled extent lies in the viewport, touches it on the axis that limits
/// the scale and keeps the bitmap's proportions within one pixel.
pub proof fn lemma_fit_extent(source: Size, viewport: Size)
    requires
        !source.is_degenerate(),
    ensures
        0 <= fit_width(source, viewport) <= viewport.width,
        0 <= fit_height(source, viewport) <= viewport.height,
        fit_width(source, viewport) == viewport.width || fit_height(source, viewport)
            == viewport.height,
        -(source.height as int) < fit_width(source, viewport) * source.height - fit_height(
            source,
            viewport,
        ) * source.width < source.width as int,
{
    let sw = source.width as int;
    let sh = source.height as int;
    let vw = viewport.width as int;
    let vh = viewport.height as int;
    if width_limits(source, viewport) {
        let q = (sh * vw) / sw;
        assert(0 <= q <= vh && 0 <= vw * sh - q * sw < sw) by (nonlinear_arith)
            requires
                q == (sh * vw) / sw,
                vw * sh <= vh * sw,
                sw > 0,
                sh > 0,
                vw >= 0,
                vh >= 0,
        ;
    } else {
        let q = (sw * vh) / sh;
        assert(0 <= q <= vw && 0 <= vh * sw - q * sh < sh) by (nonlinear_arith)
            requires
                q == (sw * vh) / sh,
                vw * sh > vh * sw,
                sw > 0,
                sh > 0,
                vw >= 0,
                vh >= 0,
        ;
        assert(q * sh - vh * sw == -(vh * sw - q * sh));
    }
}

/// Scale to fit never leaves the viewport: for a bitmap with pixels and any
/// viewport, the destination is no wider and no higher than the viewport,
/// touches it on one axis, is centred in it, has the bitmap's proportions
/// within one pixel, and the whole bitmap is sampled.
pub proof fn lemma_fit_center_fits(source: Size, viewport: Size)
    requires
        !source.is_degenerate(),
    ensures
        ({
            let p = placement_of(source, viewport, ScalePolicy::FitCenter);
            &&& p.dest.width <= viewport.width
            &&& p.dest.height <= viewport.height
            &&& p.dest.width == viewport.width || p.dest.height == viewport.height
            &&& p.dest.x == (viewport.width - p.dest.width) / 2
            &&& p.dest.y == (viewport.height - p.dest.height) / 2
            &&& p.dest.within(viewport)
            &&& keeps_proportions(source, p.dest)
            &&& p.source == (Rect { x: 0, y: 0, width: source.width, height: source.height })
        }),
{
    lemma_fit_extent(source, viewport);
}

/// Centre crop takes the middle of the bitmap: for a bitmap with pixels and
/// any viewport, the sampled rectangle starts at half of what the bitmap has
/// more than the viewport, and at 0 on an axis where it has no more; its
/// extent, and that of the destination, is the smaller of the two on each
/// axis; and the destination starts at the origin of the viewport.
pub proof fn lemma_crop_center_takes_the_middle(source: Size, viewport: Size)
    requires
        !source.is_degenerate(),
    ensures
        ({
            let p = placement_of(source, viewport, ScalePolicy::CropCenter);
            &&& p.source.x == centered_start(source.width, viewport.width)
            &&& p.source.y == centered_start(source.height, viewport.height)
            &&& p.source.width == smaller(source.width, viewport.width)
            &&& p.source.height == smaller(source.height, viewport.height)
            &&& p.dest == (Rect {
                x: 0,
                y: 0,
                width: p.source.width,
                height: p.source.height,
            })
        }),
{
}

/// Centre crop never reads outside the bitmap: for every input the sampled
/// rectangle lies inside `[0, source.width] x [0, source.height]`.
pub proof fn lemma_crop_center_samples_inside(source: Size, viewport: Size)
    ensures
        placement_of(source, viewport, ScalePolicy::CropCenter).source.within(source),
{
}

/// Whatever the policy, the sampled rectangle lies inside the bitmap, the
/// destination lies inside the viewport and has no pixels where the viewport
/// has none, and under centre crop both have the same extent.
pub proof fn lemma_placement_clipped(source: Size, viewport: Size, policy: ScalePolicy)
    ensures
        placement_of(source, viewport, policy).source.within(source),
        placement_of(source, viewport, policy).dest.within(viewport),
        viewport.is_degenerate() ==> placement_of(source, viewport, policy).dest.is_degenerate(),
        policy == ScalePolicy::CropCenter ==> {
            &&& placement_of(source, viewport, policy).source.width == placement_of(
                source,
                viewport,
                policy,
            ).dest.width
            &&& placement_of(source, viewport, policy).source.height == placement_of(
                source,
                viewport,
                policy,
            ).dest.height
        },
{
    if !source.is_degenerate() {
        lemma_fit_extent(source, viewport);
    }
}

/// A bitmap without pixels is never divided by: its placement is the empty
/// rectangle `(0, 0, 0, 0)` on both sides, whatever the viewport and policy.
pub proof fn lemma_degenerate_source_draws_nothing(
    source: Size,
    viewport: Size,
    policy: ScalePolicy,
)
    requires
        source.width == 0 || source.height == 0,
    ensures
        placement_of(source, viewport, policy) == Placement::nothing(),
        placement_of(source, viewport, policy).dest == (Rect { x: 0, y: 0, width: 0, height: 0 }),
        placement_of(source, viewport, policy).source == (Rect {
            x: 0,
            y: 0,
            width: 0,
            height: 0,
        }),
{
}

/// The product of two 32-bit extents fits in 64 bits.
proof fn lemma_product_fits(a: u32, b: u32)
    ensures
        0 <= a * b <= u64::MAX,
{
    assert(0 <= a * b <= 0xffff_ffff * 0xffff_ffff) by (nonlinear_arith)
        requires
            0 <= a <= 0xffff_ffff,
            0 <= b <= 0xffff_ffff,
    ;
}

/// Scale to fit, for a bitmap with pixels.
fn fit_center(source: Size, viewport: Size) -> (p: Placement)
    requires
        !source.is_degenerate(),
    ensures
        p == fit_center_spec(source, viewport),
{
    proof {
        lemma_product_fits(viewport.width, source.height);
        lemma_product_fits(viewport.height, source.width);
        lemma_fit_extent(source, viewport);
    }
    let sw: u64 = source.width as u64;
    let sh: u64 = source.height as u64;
    let vw: u64 = viewport.width as u64;
    let vh: u64 = viewport.height as u64;
    let across: u64 = vw * sh;
    let down: u64 = vh * sw;
    let width: u32;
    let height: u32;
    if across <= down {
        assert(sh * vw == vw * sh) by (nonlinear_arith);
        width = viewport.width;
        height = (across / sw) as u32;
    } else {
        assert(sw * vh == vh * sw) by (nonlinear_arith);
        width = (down / sh) as u32;
        height = viewport.height;
    }
    Placement {
        dest: Rect {
            x: (viewport.width - width) / 2,
            y: (viewport.height - height) / 2,
            width,
            height,
        },
        source: Rect { x: 0, y: 0, width: source.width, height: source.height },
    }
}

/// The start of a centred window on one axis.
fn centered_offset(extent: u32, window: u32) -> (start: u32)
    ensures
        start == centered_start(extent, window),
{
    if extent > window {
        (extent - window) / 2
    } else {
        0
    }
}

/// Centre crop.
fn crop_center(source: Size, viewport: Size) -> (p: Placement)
    ensures
        p == crop_center_spec(source, viewport),
{
    let width: u32 = if source.width <= viewport.width {
        source.width
    } else {
        viewport.width
    };
    let height: u32 = if source.height <= viewport.height {
        source.height
    } else {
        viewport.height
    };
    Placement {
        dest: Rect { x: 0, y: 0, width, height },
        source: Rect {
            x: centered_offset(source.width, viewport.width),
            y: centered_offset(source.height, viewport.height),
            width,
            height,
        },
    }
}

/// Computes where a bitmap of size `source` is drawn in a viewport of size
/// `viewport` under `policy`.
///
/// A bitmap without pixels gives the empty placement and no division is
/// made. Otherwise `FitCenter` scales the whole bitmap by the smaller of the
/// two ratios and centres it, and `CropCenter` takes the centre of the bitmap
/// pixel for pixel. Both rectangles always lie inside their bounds, and in a
/// viewport without pixels the destination has none.
pub fn place(source: Size, viewport: Size, policy: ScalePolicy) -> (p: Placement)
    ensures
        p == placement_of(source, viewport, policy),
        p.source.within(source),
        p.dest.within(viewport),
        source.is_degenerate() ==> p == Placement::nothing(),
        viewport.is_degenerate() ==> p.dest.is_degenerate(),
        policy == ScalePolicy::FitCenter && !source.is_degenerate() ==> {
            &&& p.dest.width <= viewport.width
            &&& p.dest.height <= viewport.height
            &&& keeps_proportions(source, p.dest)
        },
{
    proof {
        lemma_placement_clipped(source, viewport, policy);
        if !source.is_degenerate() {
            lemma_fit_center_fits(source, viewport);
        }
    }
    if source.is_empty() {
        Placement::empty()
    } else {
        match policy {
            ScalePolicy::FitCenter => fit_center(source, viewport),
            ScalePolicy::CropCenter => crop_center(source, viewport),
        }
    }
}

} // verus!
