//! Converts sizes written in device-independent pixels into the physical pixels wx wants.
//!
//! A Windows app that declares itself per-monitor DPI aware is telling Windows it will handle
//! scaling itself: a window asked for 800x600 is 800x600 *physical* pixels. Every size is written
//! as what it should measure at 100% scaling and passed through here, at the DPI of the display
//! the window is on.

use vstd::prelude::*;

verus! {

/// The DPI that device-independent pixels are defined against: a size passes through unchanged
/// on a display at 100% scaling.
pub const BASELINE_DPI: i32 = 96;

/// Integer division rounding toward zero, as Rust's `/` does on signed integers.
pub open spec fn quotient_toward_zero(n: int, d: int) -> int
    recommends
        d > 0,
{
    if n >= 0 {
        n / d
    } else {
        -((-n) / d)
    }
}

/// `value` device-independent pixels at `dpi`, rounded to the nearest physical pixel (half a
/// pixel rounds up for positive sizes), and `i32::MAX` where that does not fit in an `i32`.
pub open spec fn scaled_for_dpi(value: int, dpi: int) -> int {
    if dpi == 96 {
        value
    } else {
        let q = quotient_toward_zero(value * dpi + 48, 96);
        if i32::MIN <= q <= i32::MAX {
            q
        } else {
            i32::MAX as int
        }
    }
}

/// A size is scaled only when it is a real measurement: zero and negative values (wx's
/// `wxDefaultCoord` is -1, "work it out from the content") pass through untouched.
pub open spec fn scaled_value(value: int, dpi: int) -> int {
    if value <= 0 {
        value
    } else {
        scaled_for_dpi(value, dpi)
    }
}

/// The conversion itself, rounded to the nearest pixel rather than truncated, so a column of
/// several scaled sizes doesn't drift visibly short; a result too large for an `i32` clamps to
/// `i32::MAX` rather than wrapping negative.
pub fn scale_for_dpi(value: i32, dpi: i32) -> (scaled: i32)
    ensures
        scaled == scaled_for_dpi(value as int, dpi as int),
{
    if dpi == BASELINE_DPI {
        return value;
    }
    let v: i64 = value as i64;
    let d: i64 = dpi as i64;
    assert(-0x4000_0000_0000_0000 <= v * d <= 0x4000_0000_0000_0000) by (nonlinear_arith)
        requires
            -0x8000_0000 <= v <= 0x7fff_ffff,
            -0x8000_0000 <= d <= 0x7fff_ffff,
    ;
    let product: i64 = v * d + 48;
    let q: i64 = if product >= 0 {
        product / 96
    } else {
        -((-product) / 96)
    };
    if q < (i32::MIN as i64) || q > (i32::MAX as i64) {
        i32::MAX
    } else {
        q as i32
    }
}

/// Converts `value` from device-independent pixels to physical pixels at `dpi`.
///
/// Values that aren't real measurements are returned untouched.
pub fn scale_at_dpi(value: i32, dpi: i32) -> (scaled: i32)
    ensures
        scaled == scaled_value(value as int, dpi as int),
{
    if value <= 0 {
        return value;
    }
    scale_for_dpi(value, dpi)
}

/// A width and height in pixels.
#[derive(Debug, Clone, Copy, PartialEq, Eq, Structural)]
pub struct Size {
    pub width: i32,
    pub height: i32,
}

/// [`scale_at_dpi`] for both axes of a size.
pub fn scale_size_at_dpi(size: Size, dpi: i32) -> (scaled: Size)
    ensures
        scaled.width == scaled_value(size.width as int, dpi as int),
        scaled.height == scaled_value(size.height as int, dpi as int),
{
    Size { width: scale_at_dpi(size.width, dpi), height: scale_at_dpi(size.height, dpi) }
}

/// The DPI to scale by, from the pixels per inch a display reported: a missing or non-positive
/// reading (a headless or otherwise unreadable display) falls back to [`BASELINE_DPI`], where
/// leaving sizes alone is the safe answer.
pub fn dpi_from_ppi(ppi: Option<i32>) -> (dpi: i32)
    ensures
        dpi == (match ppi {
            Some(p) => if p > 0 { p } else { BASELINE_DPI },
            None => BASELINE_DPI,
        }),
        dpi > 0,
{
    match ppi {
        Some(p) => if p > 0 { p } else { BASELINE_DPI },
        None => BASELINE_DPI,
    }
}

/// At 100% scaling every size passes through unchanged.
pub proof fn lemma_baseline_is_identity(value: int)
    ensures
        scaled_for_dpi(value, 96) == value,
        scaled_value(value, 96) == value,
{
}

/// A positive size at a positive DPI is rounded to the nearest physical pixel, never
/// truncated: the result is within half a pixel of the exact `value * dpi / 96`, unless it is
/// too large for an `i32`, where it is `i32::MAX`. Either way it is never negative.
pub proof fn lemma_rounds_to_nearest(value: int, dpi: int)
    requires
        0 < value <= i32::MAX,
        0 < dpi <= i32::MAX,
    ensures
        scaled_for_dpi(value, dpi) >= 0,
        scaled_for_dpi(value, dpi) < i32::MAX ==> -48 < scaled_for_dpi(value, dpi) * 96 - value * dpi <= 48,
{
    assert(value * dpi > 0) by (nonlinear_arith)
        requires
            value > 0,
            dpi > 0,
    ;
    let n = value * dpi + 48;
    let q = n / 96;
    assert(q * 96 <= n < q * 96 + 96);
}

/// How a size is scaled, for every DPI the display may report: a zero or negative size is
/// returned as it is, and a positive size at a positive DPI becomes `value * dpi / 96` rounded
/// to the nearest pixel (half a pixel up), or `i32::MAX` when that is too large for an `i32`.
pub proof fn lemma_scaled_value_rounds(value: int, dpi: int)
    requires
        i32::MIN <= value <= i32::MAX,
        0 < dpi <= i32::MAX,
    ensures
        value <= 0 ==> scaled_value(value, dpi) == value,
        value > 0 && (value * dpi + 48) / 96 <= i32::MAX ==> {
            &&& scaled_value(value, dpi) * 96 <= value * dpi + 48
            &&& value * dpi + 48 < scaled_value(value, dpi) * 96 + 96
        },
        value > 0 && (value * dpi + 48) / 96 > i32::MAX ==> scaled_value(value, dpi) == i32::MAX,
{
    if value > 0 {
        assert(value * dpi > 0) by (nonlinear_arith)
            requires
                value > 0,
                dpi > 0,
        ;
        if dpi == 96 {
            assert(value * dpi == value * 96);
            assert((value * 96 + 48) / 96 == value);
        }
    }
}

/// Away from 100%, `scale_for_dpi` gives `(value * dpi + 48) / 96` with the division rounding
/// toward zero, as Rust's integer division does, or `i32::MAX` when that does not fit in an
/// `i32`; at 100% it gives the value itself.
pub proof fn lemma_scaled_for_dpi_division(value: int, dpi: int)
    ensures
        dpi == 96 ==> scaled_for_dpi(value, dpi) == value,
        dpi != 96 && value * dpi + 48 >= 0 && (value * dpi + 48) / 96 <= i32::MAX ==> {
            &&& scaled_for_dpi(value, dpi) * 96 <= value * dpi + 48
            &&& value * dpi + 48 < scaled_for_dpi(value, dpi) * 96 + 96
        },
        dpi != 96 && value * dpi + 48 < 0 && -((-(value * dpi + 48)) / 96) >= i32::MIN ==> {
            &&& scaled_for_dpi(value, dpi) * 96 - 96 < value * dpi + 48
            &&& value * dpi + 48 <= scaled_for_dpi(value, dpi) * 96
        },
        dpi != 96 && value * dpi + 48 >= 0 && (value * dpi + 48) / 96 > i32::MAX ==> scaled_for_dpi(value, dpi) == i32::MAX,
{
}

} // verus!
