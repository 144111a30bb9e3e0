//! The viewport fitter: the uniform-scale-and-center camera transform
//! that maps a scene's view box into a destination viewport while
//! preserving the aspect ratio (the SVG `xMidYMid meet` placement).
//!
//! The scale is the exact rational
//! `min(viewport_w / view_box_w, viewport_h / view_box_h)`, kept as a
//! numerator and denominator so that every claim about the fit is exact
//! integer arithmetic rather than floating point.

use vstd::prelude::*;

use crate::SvgError;

verus! {

/// Source-space bounding box of a scene's content, in whole source
/// units. Both dimensions must be positive for a fit to exist; a zero
/// dimension makes `fit_transform` report `DegenerateViewBox`.
#[derive(Clone, Copy, Debug, PartialEq, Eq, Structural)]
pub struct ViewBox {
    pub origin_x: i32,
    pub origin_y: i32,
    pub width: u32,
    pub height: u32,
}

/// The similarity transform `p' = p * scale + t` that fits a view box
/// into a viewport, held exactly as rationals:
/// `scale == scale_num / scale_den` and
/// `t == (tx_num / t_den, ty_num / t_den)` with `t_den == 2 * scale_den`.
#[derive(Clone, Copy, Debug, PartialEq, Eq, Structural)]
pub struct FitTransform {
    pub scale_num: u32,
    pub scale_den: u32,
    pub tx_num: u64,
    pub ty_num: u64,
    pub t_den: u64,
}

/// A fit exists exactly when neither the view box nor the viewport is
/// degenerate (zero-sized in some dimension).
pub open spec fn fit_ok(vb: ViewBox, vp_w: u32, vp_h: u32) -> bool {
    vb.width > 0 && vb.height > 0 && vp_w > 0 && vp_h > 0
}

/// The viewport's width is the binding axis of the fit: scaling the view
/// box width up to the viewport width keeps the scaled height inside the
/// viewport. Stated by cross-multiplication, so it is exact.
pub open spec fn fit_width_binding(vb: ViewBox, vp_w: u32, vp_h: u32) -> bool {
    vp_w * vb.height <= vp_h * vb.width
}

/// Numerator of the fit scale `min(vp_w / vb.width, vp_h / vb.height)`.
pub open spec fn fit_scale_num(vb: ViewBox, vp_w: u32, vp_h: u32) -> u32 {
    if fit_width_binding(vb, vp_w, vp_h) {
        vp_w
    } else {
        vp_h
    }
}

/// Denominator of the fit scale.
pub open spec fn fit_scale_den(vb: ViewBox, vp_w: u32, vp_h: u32) -> u32 {
    if fit_width_binding(vb, vp_w, vp_h) {
        vb.width
    } else {
        vb.height
    }
}

/// The whole fit transform:
/// `scale = min(vp_w / vb.width, vp_h / vb.height)` and
/// `t = (vp_w, vp_h) * 1/2 - (vb.width, vb.height) * scale/2`, both kept
/// over the common denominator `2 * fit_scale_den`.
pub open spec fn spec_fit(vb: ViewBox, vp_w: u32, vp_h: u32) -> FitTransform {
    let num = fit_scale_num(vb, vp_w, vp_h);
    let den = fit_scale_den(vb, vp_w, vp_h);
    FitTransform {
        scale_num: num,
        scale_den: den,
        tx_num: (vp_w * den - vb.width * num) as u64,
        ty_num: (vp_h * den - vb.height * num) as u64,
        t_den: (2 * den) as u64,
    }
}

/// Computes the transform that centers `vb` in a `vp_w` by `vp_h`
/// viewport at the largest uniform scale that keeps it contained, or
/// says which input was degenerate.
pub fn fit_transform(vb: &ViewBox, vp_w: u32, vp_h: u32) -> (r: Result<FitTransform, SvgError>)
    ensures
        fit_ok(*vb, vp_w, vp_h) ==> r == Ok::<FitTransform, SvgError>(spec_fit(*vb, vp_w, vp_h)),
        (vb.width == 0 || vb.height == 0) ==> r == Err::<FitTransform, SvgError>(
            SvgError::DegenerateViewBox,
        ),
        (vb.width > 0 && vb.height > 0 && (vp_w == 0 || vp_h == 0)) ==> r == Err::<
            FitTransform,
            SvgError,
        >(SvgError::DegenerateViewport),
{
    if vb.width == 0 || vb.height == 0 {
        return Err(SvgError::DegenerateViewBox);
    }
    if vp_w == 0 || vp_h == 0 {
        return Err(SvgError::DegenerateViewport);
    }
    proof {
        lemma_u32_mul_fits(vp_w, vb.height);
        lemma_u32_mul_fits(vp_h, vb.width);
        lemma_u32_mul_fits(vp_w, vb.width);
        lemma_u32_mul_fits(vp_h, vb.height);
    }
    let cross_w: u64 = (vp_w as u64) * (vb.height as u64);
    let cross_h: u64 = (vp_h as u64) * (vb.width as u64);
    let num: u32 = if cross_w <= cross_h { vp_w } else { vp_h };
    let den: u32 = if cross_w <= cross_h { vb.width } else { vb.height };
    proof {
        lemma_scaled_box_contained(*vb, vp_w, vp_h);
    }
    let tx_num: u64 = (vp_w as u64) * (den as u64) - (vb.width as u64) * (num as u64);
    let ty_num: u64 = (vp_h as u64) * (den as u64) - (vb.height as u64) * (num as u64);
    Ok(FitTransform { scale_num: num, scale_den: den, tx_num, ty_num, t_den: 2 * (den as u64) })
}

/// Two 32-bit factors never overflow a 64-bit product.
proof fn lemma_u32_mul_fits(a: u32, b: u32)
    ensures
        a * b <= 0xFFFF_FFFE_0000_0001,
{
    assert(a * b <= 0xFFFF_FFFFu64 * 0xFFFF_FFFFu64) by (nonlinear_arith)
        requires
            a <= 0xFFFF_FFFFu64,
            b <= 0xFFFF_FFFFu64,
    ;
}

/// At the fit scale the view box does not out-measure the viewport on
/// either axis (cross-multiplied, so no division appears).
proof fn lemma_scaled_box_contained(vb: ViewBox, vp_w: u32, vp_h: u32)
    requires
        fit_ok(vb, vp_w, vp_h),
    ensures
        vb.width * fit_scale_num(vb, vp_w, vp_h) <= vp_w * fit_scale_den(vb, vp_w, vp_h),
        vb.height * fit_scale_num(vb, vp_w, vp_h) <= vp_h * fit_scale_den(vb, vp_w, vp_h),
{
    let num = fit_scale_num(vb, vp_w, vp_h);
    let den = fit_scale_den(vb, vp_w, vp_h);
    if fit_width_binding(vb, vp_w, vp_h) {
        assert(vb.width * num <= vp_w * den && vb.height * num <= vp_h * den)
            by (nonlinear_arith)
            requires
                num == vp_w,
                den == vb.width,
                vp_w * vb.height <= vp_h * vb.width,
        ;
    } else {
        assert(vb.width * num <= vp_w * den && vb.height * num <= vp_h * den)
            by (nonlinear_arith)
            requires
                num == vp_h,
                den == vb.height,
                vp_w * vb.height > vp_h * vb.width,
        ;
    }
}

/// The "meet" property of the fit transform `t == spec_fit(vb, vp_w, vp_h)`
/// for every non-degenerate view box and viewport: the scale is positive;
/// the scaled view box is contained in the viewport on both axes and
/// fills it exactly on at least one; and the translation centers the
/// scaled box on both axes. Containment and centering are stated over
/// the transform's own denominators, so each line is exact:
/// `vb.width * scale <= vp_w` reads `vb.width * t.scale_num <= vp_w * t.scale_den`,
/// and `2 * tx + vb.width * scale == vp_w` reads
/// `2 * (t.tx_num / t.t_den) + vb.width * (t.scale_num / t.scale_den) == vp_w`
/// cleared of denominators.
pub proof fn lemma_fit_meet(vb: ViewBox, vp_w: u32, vp_h: u32, t: FitTransform)
    requires
        fit_ok(vb, vp_w, vp_h),
        t == spec_fit(vb, vp_w, vp_h),
    ensures
        t.scale_num > 0,
        t.scale_den > 0,
        t.t_den == 2 * t.scale_den,
        vb.width * t.scale_num <= vp_w * t.scale_den,
        vb.height * t.scale_num <= vp_h * t.scale_den,
        vb.width * t.scale_num == vp_w * t.scale_den || vb.height * t.scale_num == vp_h
            * t.scale_den,
        t.tx_num + vb.width * t.scale_num == vp_w * t.scale_den,
        t.ty_num + vb.height * t.scale_num == vp_h * t.scale_den,
{
    let num = fit_scale_num(vb, vp_w, vp_h);
    let den = fit_scale_den(vb, vp_w, vp_h);
    lemma_scaled_box_contained(vb, vp_w, vp_h);
    lemma_u32_mul_fits(vp_w, den);
    lemma_u32_mul_fits(vp_h, den);
    if fit_width_binding(vb, vp_w, vp_h) {
        assert(vb.width * num == vp_w * den) by (nonlinear_arith)
            requires
                num == vp_w,
                den == vb.width,
        ;
    } else {
        assert(vb.height * num == vp_h * den) by (nonlinear_arith)
            requires
                num == vp_h,
                den == vb.height,
        ;
    }
}

} // verus!
