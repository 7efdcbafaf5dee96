//! Properties that relate several calls of the transforms.

use crate::codec::{
    bytes_per_pixel, decoded_shape, gray_kind, shape, within_round_trip_size, ColorKind,
    RasterShape, RasterView,
};
use crate::transform::{
    blur_post, grayscale_post, is_round_trip_png, reencode_post, writes, TransformError,
};
use vstd::prelude::*;

verus! {

/// Blurring with no kernel applies no smoothing: on the PNG of a raster it
/// gives the same bytes as re-encoding, which are the input's own.
pub proof fn lemma_blur_without_kernel_is_reencode(
    b: Seq<u8>,
    v: RasterView,
    blurred: Result<Seq<u8>, TransformError>,
    reencoded: Result<Seq<u8>, TransformError>,
)
    requires
        is_round_trip_png(b, v),
        blur_post(b, None, blurred),
        reencode_post(b, reencoded),
    ensures
        blurred == reencoded,
        blurred == Ok::<Seq<u8>, TransformError>(b),
{
    assert(is_round_trip_png(b, v));
}

/// Grayscale conversion never makes a pixel wider.
proof fn lemma_gray_kind_not_wider(c: ColorKind)
    ensures
        bytes_per_pixel(gray_kind(c)) <= bytes_per_pixel(c),
{
}

/// Grayscale is idempotent: where the input decodes to a raster within
/// `within_round_trip_size`, converting the output of a successful grayscale
/// conversion again succeeds and gives the same bytes.
pub proof fn lemma_grayscale_idempotent(
    b: Seq<u8>,
    once: Seq<u8>,
    twice: Result<Seq<u8>, TransformError>,
)
    requires
        decoded_shape(b) matches Some(s) && within_round_trip_size(s),
        grayscale_post(b, Ok(once)),
        grayscale_post(once, twice),
    ensures
        twice == Ok::<Seq<u8>, TransformError>(once),
{
    let s = decoded_shape(b)->0;
    let gs = RasterShape { color: gray_kind(s.color), ..s };
    let o = choose|o: RasterView| #![trigger writes(Ok(once), o)] shape(o) == gs && writes(Ok(once), o);
    lemma_gray_kind_not_wider(s.color);
    let w = s.width as int;
    let h = s.height as int;
    let gb = bytes_per_pixel(gs.color) as int;
    let sb = bytes_per_pixel(s.color) as int;
    assert(w * h * gb <= w * h * sb) by (nonlinear_arith)
        requires
            gb <= sb,
            w >= 0,
            h >= 0,
    ;
    assert(within_round_trip_size(shape(o)));
    assert(is_round_trip_png(once, o));
}

} // verus!
