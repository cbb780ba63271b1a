use vstd::prelude::*;
use fraction::Fraction;

verus! {

/// A non-negative rational number `numer / denom`.
#[derive(Clone, Copy, PartialEq, Eq, Debug, Structural)]
pub struct Ratio {
    pub numer: u64,
    pub denom: u64,
}

/// A selected area of a screen in relative measures: `x` is the offset from
/// the left edge as a fraction of the screen width, `y` likewise from the top,
/// and `width` and `height` are fractions of the screen's width and height.
#[derive(Clone, Copy, PartialEq, Eq, Debug, Structural)]
pub struct RelativeScreenCrop {
    pub x: Ratio,
    pub y: Ratio,
    pub width: Ratio,
    pub height: Ratio,
}

/// A crop in pixels, as ffmpeg's `crop` filter takes it.
#[derive(Clone, Copy, PartialEq, Eq, Debug, Structural)]
pub struct CropFilter {
    pub x: usize,
    pub y: usize,
    pub width: usize,
    pub height: usize,
}

/// `n / d` rounded to the nearest integer, halves away from zero.
pub open spec fn round_div(n: nat, d: nat) -> nat {
    ((2 * n + d) / (2 * d)) as nat
}

/// `r * factor` rounded to the nearest integer, halves away from zero.
pub open spec fn scaled(r: Ratio, factor: nat) -> nat {
    round_div((r.numer * factor) as nat, r.denom as nat)
}

/// The largest even number not above `n`.
pub open spec fn even_floor(n: nat) -> nat {
    (n - n % 2) as nat
}

/// `r * factor` can be computed without overflow and its rounding fits a `usize`.
pub open spec fn scalable(r: Ratio, factor: nat) -> bool {
    &&& r.denom > 0
    &&& r.numer * factor <= u64::MAX
    &&& scaled(r, factor) <= usize::MAX
}

/// Multiplies the fraction `r.numer / r.denom` by `factor` with the `fraction`
/// crate (`GenericFraction<u64>`: `new`, `From<usize>`, `Mul`, `round`) and
/// converts the result to `usize` with its `TryFrom`. The contract claims
/// what that code computes for a positive denominator and a product that fits
/// in `u64` (the multiplication of `num_rational::Ratio` reduces by common
/// factors before it multiplies, so it stays below `numer * factor`): the
/// rounding halves away from zero, and the conversion fails only where the
/// result exceeds `usize`.
#[verifier::external_body]
fn fraction_scale_round(r: Ratio, factor: usize) -> (out: Option<usize>)
    requires
        r.denom > 0,
        r.numer * factor <= u64::MAX,
    ensures
        scaled(r, factor as nat) <= usize::MAX ==> out == Some(scaled(r, factor as nat) as usize),
        scaled(r, factor as nat) > usize::MAX ==> out is None,
{
    (Fraction::new(r.numer, r.denom) * Fraction::from(factor)).round().try_into().ok()
}

/// `r * factor` rounded, where `scalable(r, factor)` holds; `None` otherwise.
pub fn checked_scaled(r: Ratio, factor: usize) -> (out: Option<usize>)
    ensures
        match out {
            Some(v) => scalable(r, factor as nat) && v == scaled(r, factor as nat),
            None => !scalable(r, factor as nat),
        },
{
    if r.denom == 0 {
        return None;
    }
    let f: u64 = factor as u64;
    match r.numer.checked_mul(f) {
        None => None,
        Some(_) => fraction_scale_round(r, factor),
    }
}

/// Clears the lowest bit: the largest even number not above `number`.
pub fn truncate_to_even(number: usize) -> (r: usize)
    ensures
        r == even_floor(number as nat),
        r % 2 == 0,
        r <= number,
{
    let r = (number >> 1) << 1;
    assert(((number >> 1) << 1) == number - number % 2) by (bit_vector);
    r
}

impl CropFilter {
    /// The pixel crop of a relative crop on a frame of `width` x `height`
    /// pixels: each measure is scaled and rounded, and the crop's width and
    /// height are then made even, as the H.264 encoder needs.
    pub fn from(relative_crop: &RelativeScreenCrop, width: usize, height: usize) -> (c: Self)
        requires
            scalable(relative_crop.x, width as nat),
            scalable(relative_crop.y, height as nat),
            scalable(relative_crop.width, width as nat),
            scalable(relative_crop.height, height as nat),
        ensures
            c.x == scaled(relative_crop.x, width as nat),
            c.y == scaled(relative_crop.y, height as nat),
            c.width == even_floor(scaled(relative_crop.width, width as nat)),
            c.height == even_floor(scaled(relative_crop.height, height as nat)),
    {
        let x = match fraction_scale_round(relative_crop.x, width) {
            Some(v) => v,
            None => 0,
        };
        let y = match fraction_scale_round(relative_crop.y, height) {
            Some(v) => v,
            None => 0,
        };
        let w = match fraction_scale_round(relative_crop.width, width) {
            Some(v) => v,
            None => 0,
        };
        let h = match fraction_scale_round(relative_crop.height, height) {
            Some(v) => v,
            None => 0,
        };
        CropFilter { x, y, width: truncate_to_even(w), height: truncate_to_even(h) }
    }
}

} // verus!
