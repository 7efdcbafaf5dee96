//! The three transforms: decode, apply one operation, encode as PNG.

use crate::codec::{
    decoded_shape, gaussian_blur, gray_kind, grayscale_of, is_float, is_gray, load,
    png_encoding, raster, resize_lanczos3, shape, to_grayscale, within_round_trip_size,
    write_png, RasterShape, RasterView,
};
use image::imageops::GaussianBlurParameters;
use image::DynamicImage;
use vstd::prelude::*;

verus! {

/// Why a transform produced no image.
#[derive(PartialEq, Eq, Structural, Clone, Copy, Debug)]
pub enum TransformError {
    /// A target width or height of zero.
    InvalidDimensions,
    /// A blur strength that is negative or not a finite number.
    InvalidSigma,
    /// The input bytes are not an image in a supported format.
    DecodeError,
    /// The result could not be written as PNG.
    EncodeError,
}

/// A transform's result with the output bytes seen as a sequence.
pub open spec fn bytes_of(r: Result<Vec<u8>, TransformError>) -> Result<Seq<u8>, TransformError> {
    match r {
        Ok(v) => Ok(v@),
        Err(e) => Err(e),
    }
}

/// What writing the raster `v` as PNG guarantees of the outcome `r`: it
/// succeeds exactly where the PNG encoding of `v` exists and gives its bytes;
/// a failure is an `EncodeError`; rasters that PNG can hold and that are
/// within `within_round_trip_size` are written, and their bytes decode to a
/// raster of the same size and layout.
pub open spec fn writes(r: Result<Seq<u8>, TransformError>, v: RasterView) -> bool {
    &&& r is Ok <==> png_encoding(v) is Some
    &&& r is Ok ==> !is_float(v.color) && png_encoding(v) == Some(r->Ok_0)
    &&& r is Err ==> r->Err_0 == TransformError::EncodeError
    &&& !is_float(v.color) && within_round_trip_size(shape(v)) ==> r is Ok
    &&& r is Ok && within_round_trip_size(shape(v)) ==> decoded_shape(r->Ok_0) == Some(shape(v))
}

/// The outcome `r` writes some raster of the shape `s` as PNG.
pub open spec fn writes_shape(r: Result<Seq<u8>, TransformError>, s: RasterShape) -> bool {
    exists|o: RasterView| #![trigger writes(r, o)] shape(o) == s && writes(r, o)
}

/// `b` is what the PNG encoder wrote for a raster that decodes back.
pub open spec fn is_round_trip_png(b: Seq<u8>, v: RasterView) -> bool {
    png_encoding(v) == Some(b) && within_round_trip_size(shape(v))
}

/// All that `grayscale` guarantees of its result `r` for the input `b`:
/// undecodable bytes are refused; otherwise the output is the PNG of a raster
/// of the input's size in the matching luma layout; and the PNG of a luma
/// raster comes back unchanged.
pub open spec fn grayscale_post(b: Seq<u8>, r: Result<Seq<u8>, TransformError>) -> bool {
    &&& match decoded_shape(b) {
        Some(s) => writes_shape(r, RasterShape { color: gray_kind(s.color), ..s }),
        None => r == Err::<Seq<u8>, TransformError>(TransformError::DecodeError),
    }
    &&& forall|v: RasterView|
        #![trigger png_encoding(v)]
        is_round_trip_png(b, v) && is_gray(v.color) ==> r == Ok::<Seq<u8>, TransformError>(b)
}

/// Undecodable bytes are refused; otherwise the output is the PNG of a raster
/// of the input's size and layout, and the PNG of a raster comes back
/// unchanged.
pub open spec fn same_shape_post(b: Seq<u8>, r: Result<Seq<u8>, TransformError>) -> bool {
    &&& match decoded_shape(b) {
        Some(s) => writes_shape(r, s),
        None => r == Err::<Seq<u8>, TransformError>(TransformError::DecodeError),
    }
    &&& forall|v: RasterView|
        #![trigger png_encoding(v)]
        is_round_trip_png(b, v) ==> r == Ok::<Seq<u8>, TransformError>(b)
}

/// All that `reencode` guarantees of its result `r` for the input `b`.
pub open spec fn reencode_post(b: Seq<u8>, r: Result<Seq<u8>, TransformError>) -> bool {
    same_shape_post(b, r)
}

/// All that `blur` guarantees of its result `r` for the input `b`; without a
/// kernel it is a plain re-encoding.
pub open spec fn blur_post(
    b: Seq<u8>,
    kernel: Option<GaussianBlurParameters>,
    r: Result<Seq<u8>, TransformError>,
) -> bool {
    &&& match decoded_shape(b) {
        Some(s) => writes_shape(r, s),
        None => r == Err::<Seq<u8>, TransformError>(TransformError::DecodeError),
    }
    &&& kernel is None ==> same_shape_post(b, r)
}

/// All that `resize` guarantees of its result `r` for the input `b`.
pub open spec fn resize_post(b: Seq<u8>, w: u32, h: u32, r: Result<Seq<u8>, TransformError>) -> bool {
    if w == 0 || h == 0 {
        r == Err::<Seq<u8>, TransformError>(TransformError::InvalidDimensions)
    } else {
        match decoded_shape(b) {
            Some(s) => writes_shape(r, RasterShape { width: w, height: h, color: s.color }),
            None => r == Err::<Seq<u8>, TransformError>(TransformError::DecodeError),
        }
    }
}

fn decode(data: &[u8]) -> (r: Result<DynamicImage, TransformError>)
    ensures
        match decoded_shape(data@) {
            Some(s) => r matches Ok(img) && shape(raster(img)) == s,
            None => r == Err::<DynamicImage, TransformError>(TransformError::DecodeError),
        },
        forall|v: RasterView|
            #![trigger png_encoding(v)]
            is_round_trip_png(data@, v) ==> r is Ok && raster(r->Ok_0) == v,
{
    match load(data) {
        Ok(img) => Ok(img),
        Err(_) => Err(TransformError::DecodeError),
    }
}

fn encode(img: &DynamicImage) -> (r: Result<Vec<u8>, TransformError>)
    ensures
        writes(bytes_of(r), raster(*img)),
{
    match write_png(img) {
        Ok(out) => Ok(out),
        Err(_) => Err(TransformError::EncodeError),
    }
}

/// Decodes the image and writes it back as PNG, unchanged.
pub fn reencode(image_data: &[u8]) -> (r: Result<Vec<u8>, TransformError>)
    ensures
        reencode_post(image_data@, bytes_of(r)),
{
    let img = match decode(image_data) {
        Ok(img) => img,
        Err(e) => return Err(e),
    };
    let r = encode(&img);
    assert(writes(bytes_of(r), raster(img)));
    r
}

/// Resamples the image to exactly `width` by `height` pixels with a Lanczos
/// filter and returns it as PNG.
pub fn resize(image_data: &[u8], width: u32, height: u32) -> (r: Result<Vec<u8>, TransformError>)
    ensures
        resize_post(image_data@, width, height, bytes_of(r)),
{
    if width == 0 || height == 0 {
        return Err(TransformError::InvalidDimensions);
    }
    let img = match decode(image_data) {
        Ok(img) => img,
        Err(e) => return Err(e),
    };
    let resized = resize_lanczos3(&img, width, height);
    let r = encode(&resized);
    assert(writes(bytes_of(r), raster(resized)));
    r
}

/// Converts the image to luma (alpha kept) and returns it as PNG.
pub fn grayscale(image_data: &[u8]) -> (r: Result<Vec<u8>, TransformError>)
    ensures
        grayscale_post(image_data@, bytes_of(r)),
{
    let img = match decode(image_data) {
        Ok(img) => img,
        Err(e) => return Err(e),
    };
    let gray = to_grayscale(&img);
    let r = encode(&gray);
    assert(writes(bytes_of(r), raster(gray)));
    r
}

/// Blurs the image with the Gaussian kernel, or leaves it as it is where
/// there is none, and returns it as PNG.
pub fn blur(image_data: &[u8], kernel: Option<GaussianBlurParameters>) -> (r: Result<
    Vec<u8>,
    TransformError,
>)
    ensures
        blur_post(image_data@, kernel, bytes_of(r)),
{
    let img = match decode(image_data) {
        Ok(img) => img,
        Err(e) => return Err(e),
    };
    match kernel {
        Some(k) => {
            let blurred = gaussian_blur(&img, k);
            let r = encode(&blurred);
            assert(writes(bytes_of(r), raster(blurred)));
            r
        },
        None => {
            let r = encode(&img);
            assert(writes(bytes_of(r), raster(img)));
            r
        },
    }
}

} // verus!
