use vstd::prelude::*;

use crate::encode::FACE_THUMBNAIL_MIN_DIMENSION;
use crate::error::{MlError, MlResult};

verus! {

/// `n / d` rounded to the nearest integer, ties to the even neighbour.
pub open spec fn div_round_half_even(n: nat, d: nat) -> nat
    recommends
        d > 0,
{
    let q = n / d;
    let twice_rem = 2 * (n % d);
    if twice_rem > d {
        q + 1
    } else if twice_rem == d {
        q + q % 2
    } else {
        q
    }
}

/// The long side scaled by the factor that brings the short side to the
/// thumbnail's minimum dimension.
pub open spec fn scaled_long(long_side: u32, short_side: u32) -> nat {
    div_round_half_even(long_side as nat * FACE_THUMBNAIL_MIN_DIMENSION as nat, short_side as nat)
}

/// The long side of a thumbnail whose short side is scaled from `short_side` to
/// the minimum dimension, keeping the aspect ratio.
///
/// Fails with a postprocess error when the short side is zero or the result is
/// zero or does not fit in `u32`.
pub fn scaled_long_side(long_side: u32, short_side: u32) -> (r: MlResult<u32>)
    ensures
        short_side == 0 ==> r is Err,
        short_side > 0 ==> (r is Ok <==> 0 < scaled_long(long_side, short_side) <= u32::MAX),
        r matches Ok(v) ==> v == scaled_long(long_side, short_side),
        r matches Err(e) ==> e is Postprocess,
{
    if short_side == 0 {
        return Err(MlError::Postprocess(String::from_str("cannot scale with zero short side")));
    }
    assert(long_side as int * 512 <= 0xffff_ffff * 512) by (nonlinear_arith)
        requires
            long_side <= 0xffff_ffff,
    ;
    let numerator: u64 = long_side as u64 * FACE_THUMBNAIL_MIN_DIMENSION as u64;
    let denominator: u64 = short_side as u64;
    let quotient = numerator / denominator;
    let twice_rem = 2 * (numerator % denominator);
    let rounded: u64 = if twice_rem > denominator {
        quotient + 1
    } else if twice_rem == denominator {
        quotient + quotient % 2
    } else {
        quotient
    };
    if rounded == 0 || rounded > u32::MAX as u64 {
        return Err(MlError::Postprocess(String::from_str("invalid scaled thumbnail dimension")));
    }
    Ok(rounded as u32)
}

/// Thumbnail size for a crop of `width` by `height`: the short side becomes the
/// minimum dimension and the long side is scaled in proportion.
///
/// Fails with a postprocess error when a side is zero or the scaled long side is
/// zero or does not fit in `u32`.
pub fn dimensions_with_min_side(width: u32, height: u32) -> (r: MlResult<(u32, u32)>)
    ensures
        (width == 0 || height == 0) ==> r is Err,
        width > 0 && height > 0 && width <= height ==> (r is Ok <==> scaled_long(height, width)
            <= u32::MAX),
        width > 0 && height > 0 && width > height ==> (r is Ok <==> scaled_long(width, height)
            <= u32::MAX),
        r matches Ok(d) ==> (d.0 as nat, d.1 as nat) == min_side_dims(width, height),
        r matches Err(e) ==> e is Postprocess,
{
    if width == 0 || height == 0 {
        return Err(
            MlError::Postprocess(String::from_str("cannot compute resize dimensions for zero-sized crop")),
        );
    }
    if width <= height {
        proof {
            lemma_scaled_long_at_least_min(height, width);
        }
        let long = scaled_long_side(height, width)?;
        Ok((FACE_THUMBNAIL_MIN_DIMENSION, long))
    } else {
        proof {
            lemma_scaled_long_at_least_min(width, height);
        }
        let long = scaled_long_side(width, height)?;
        Ok((long, FACE_THUMBNAIL_MIN_DIMENSION))
    }
}

/// Scaling the long side never makes it shorter than the scaled short side.
pub proof fn lemma_scaled_long_at_least_min(long_side: u32, short_side: u32)
    requires
        0 < short_side <= long_side,
    ensures
        scaled_long(long_side, short_side) >= FACE_THUMBNAIL_MIN_DIMENSION,
{
    let n = long_side as nat * 512;
    let d = short_side as nat;
    assert(n >= d * 512) by (nonlinear_arith)
        requires
            n == long_side as nat * 512,
            d == short_side as nat,
            short_side <= long_side,
    ;
    assert(n / d >= 512) by (nonlinear_arith)
        requires
            n >= d * 512,
            d > 0,
    ;
}

/// The thumbnail size for a `width` by `height` crop: short side at the minimum
/// dimension, long side scaled in proportion (width first).
pub open spec fn min_side_dims(width: u32, height: u32) -> (nat, nat) {
    if width <= height {
        (FACE_THUMBNAIL_MIN_DIMENSION as nat, scaled_long(height, width))
    } else {
        (scaled_long(width, height), FACE_THUMBNAIL_MIN_DIMENSION as nat)
    }
}

/// A thumbnail's short side is exactly the minimum dimension, and its long side
/// is the crop's long side times the scale factor, off by at most half a pixel
/// in units of the crop's short side.
pub proof fn lemma_min_side_dims_short_side(width: u32, height: u32)
    requires
        width > 0,
        height > 0,
    ensures
        ({
            let d = min_side_dims(width, height);
            &&& d.0 <= d.1 ==> d.0 == FACE_THUMBNAIL_MIN_DIMENSION
            &&& d.1 < d.0 ==> d.1 == FACE_THUMBNAIL_MIN_DIMENSION
            &&& d.0 * height as nat <= d.1 * width as nat + width as nat / 2 + height as nat / 2
            &&& d.1 * width as nat <= d.0 * height as nat + width as nat / 2 + height as nat / 2
        }),
{
    if width <= height {
        lemma_scaled_long_at_least_min(height, width);
        lemma_half_even_close(height as nat * 512, width as nat);
    } else {
        lemma_scaled_long_at_least_min(width, height);
        lemma_half_even_close(width as nat * 512, height as nat);
    }
}

/// Rounding to the nearest integer is off by at most half the divisor.
pub proof fn lemma_half_even_close(n: nat, d: nat)
    requires
        d > 0,
    ensures
        div_round_half_even(n, d) * d <= n + d / 2,
        n <= div_round_half_even(n, d) * d + d / 2,
{
    let q = n / d;
    let r = n % d;
    assert(n == q * d + r) by (nonlinear_arith)
        requires
            d > 0,
            q == n / d,
            r == n % d,
    ;
    assert((q + 1) * d == q * d + d) by (nonlinear_arith);
}

} // verus!
