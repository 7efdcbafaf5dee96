//! The boundary with the `image` crate: its types, names for what its
//! functions compute, and the wrappers that call it.

use image::imageops::{FilterType, GaussianBlurParameters};
use image::{DynamicImage, ImageError, ImageFormat};
use std::io::Cursor;
use vstd::prelude::*;

verus! {

#[verifier::external_type_specification]
#[verifier::external_body]
pub struct ExDynamicImage(DynamicImage);

#[verifier::external_type_specification]
#[verifier::external_body]
pub struct ExImageError(ImageError);

#[verifier::external_type_specification]
#[verifier::external_body]
pub struct ExGaussianBlurParameters(GaussianBlurParameters);

/// The pixel layout of a raster: channels and bits per channel.
#[derive(PartialEq, Eq, Structural, Clone, Copy, Debug)]
pub enum ColorKind {
    L8,
    La8,
    Rgb8,
    Rgba8,
    L16,
    La16,
    Rgb16,
    Rgba16,
    Rgb32F,
    Rgba32F,
}

/// What a raster holds: its size, its pixel layout and its channel values,
/// row by row, each written as big-endian bytes.
pub struct RasterView {
    pub width: u32,
    pub height: u32,
    pub color: ColorKind,
    pub samples: Seq<u8>,
}

/// The size and pixel layout of a raster, without its samples.
pub struct RasterShape {
    pub width: u32,
    pub height: u32,
    pub color: ColorKind,
}

pub open spec fn shape(v: RasterView) -> RasterShape {
    RasterShape { width: v.width, height: v.height, color: v.color }
}

/// Layouts with a single luma channel (and possibly alpha).
pub open spec fn is_gray(c: ColorKind) -> bool {
    match c {
        ColorKind::L8 | ColorKind::La8 | ColorKind::L16 | ColorKind::La16 => true,
        _ => false,
    }
}

/// Layouts with 32-bit float samples, which PNG cannot hold.
pub open spec fn is_float(c: ColorKind) -> bool {
    c == ColorKind::Rgb32F || c == ColorKind::Rgba32F
}

/// Bytes that one pixel takes in each layout.
pub open spec fn bytes_per_pixel(c: ColorKind) -> nat {
    match c {
        ColorKind::L8 => 1,
        ColorKind::La8 => 2,
        ColorKind::Rgb8 => 3,
        ColorKind::Rgba8 => 4,
        ColorKind::L16 => 2,
        ColorKind::La16 => 4,
        ColorKind::Rgb16 => 6,
        ColorKind::Rgba16 => 8,
        ColorKind::Rgb32F => 12,
        ColorKind::Rgba32F => 16,
    }
}

/// The largest raster, in bytes of samples, for which writing and reading
/// back as PNG is relied on: well inside the decoder's default allocation
/// limit of 512 MiB, which also has to hold the PNG reader's row buffers.
pub const MAX_ROUND_TRIP_BYTES: u64 = 134217728;

/// The raster is not empty and its samples stay within `MAX_ROUND_TRIP_BYTES`.
pub open spec fn within_round_trip_size(v: RasterShape) -> bool {
    &&& v.width > 0
    &&& v.height > 0
    &&& v.width * v.height * bytes_per_pixel(v.color) <= MAX_ROUND_TRIP_BYTES
}

/// The layout that grayscale conversion yields for each input layout:
/// luma of the same depth, alpha kept; float layouts stay as they are.
pub open spec fn gray_kind(c: ColorKind) -> ColorKind {
    match c {
        ColorKind::L8 | ColorKind::Rgb8 => ColorKind::L8,
        ColorKind::La8 | ColorKind::Rgba8 => ColorKind::La8,
        ColorKind::L16 | ColorKind::Rgb16 => ColorKind::L16,
        ColorKind::La16 | ColorKind::Rgba16 => ColorKind::La16,
        ColorKind::Rgb32F => ColorKind::Rgb32F,
        ColorKind::Rgba32F => ColorKind::Rgba32F,
    }
}

/// The contents of an image: its width, height, layout and channel values
/// (its color-space data is not part of it).
pub uninterp spec fn raster(img: DynamicImage) -> RasterView;

/// Whether decoding the bytes in the format that `image::guess_format` finds
/// succeeds, and the size and layout that the file's header gives the
/// result: `None` where either step fails.
pub uninterp spec fn decoded_shape(b: Seq<u8>) -> Option<RasterShape>;

/// The PNG bytes that `DynamicImage::write_to` produces: `None` where it fails.
pub uninterp spec fn png_encoding(v: RasterView) -> Option<Seq<u8>>;

/// The result of luma-weighted grayscale conversion, in integer arithmetic.
pub uninterp spec fn grayscale_of(v: RasterView) -> RasterView;

/// Relies on `image::guess_format` and `image::load_from_memory_with_format`:
/// the format is read from the magic bytes and only the built-in decoders,
/// with the default limits, are used. Whether decoding succeeds, and the size
/// and layout of the result, depend on the bytes alone. Bytes that the PNG
/// encoder wrote for a raster within `within_round_trip_size` decode back to
/// that raster: PNG is lossless and the reader expands no depth it keeps.
#[verifier::external_body]
pub(crate) fn load(data: &[u8]) -> (r: Result<DynamicImage, ImageError>)
    ensures
        r is Ok <==> decoded_shape(data@) is Some,
        r is Ok ==> decoded_shape(data@) == Some(shape(raster(r->Ok_0))),
        forall|v: RasterView|
            #![trigger png_encoding(v)]
            png_encoding(v) == Some(data@) && within_round_trip_size(shape(v)) ==> r is Ok
                && raster(r->Ok_0) == v,
{
    image::guess_format(data).and_then(|format| image::load_from_memory_with_format(data, format))
}

/// Relies on `DynamicImage::write_to` with `ImageFormat::Png`: float layouts,
/// which PNG cannot hold, make it fail, and so do empty rasters; other rasters
/// of moderate size are written. The bytes depend on the raster alone, and
/// for a raster within `within_round_trip_size` they decode to its size and
/// layout.
#[verifier::external_body]
pub(crate) fn write_png(img: &DynamicImage) -> (r: Result<Vec<u8>, ImageError>)
    ensures
        r is Ok <==> png_encoding(raster(*img)) is Some,
        r is Ok ==> png_encoding(raster(*img)) == Some(r->Ok_0@),
        r is Ok ==> !is_float(raster(*img).color),
        r is Ok ==> raster(*img).width > 0 && raster(*img).height > 0,
        !is_float(raster(*img).color) && within_round_trip_size(shape(raster(*img))) ==> r is Ok,
        r is Ok && within_round_trip_size(shape(raster(*img))) ==> decoded_shape(r->Ok_0@)
            == Some(shape(raster(*img))),
{
    let mut buf = Cursor::new(Vec::new());
    img.write_to(&mut buf, ImageFormat::Png)?;
    Ok(buf.into_inner())
}

/// Relies on `DynamicImage::resize_exact` with `FilterType::Lanczos3`: the
/// result has exactly the requested size and the input's layout.
#[verifier::external_body]
pub(crate) fn resize_lanczos3(img: &DynamicImage, width: u32, height: u32) -> (r: DynamicImage)
    ensures
        raster(r).width == width,
        raster(r).height == height,
        raster(r).color == raster(*img).color,
{
    img.resize_exact(width, height, FilterType::Lanczos3)
}

/// Relies on `DynamicImage::grayscale`: the size is kept, the layout becomes
/// `gray_kind` of the input's, and a luma image comes back unchanged.
#[verifier::external_body]
pub(crate) fn to_grayscale(img: &DynamicImage) -> (r: DynamicImage)
    ensures
        raster(r) == grayscale_of(raster(*img)),
        raster(r).width == raster(*img).width,
        raster(r).height == raster(*img).height,
        raster(r).color == gray_kind(raster(*img).color),
        is_gray(raster(*img).color) ==> raster(r) == raster(*img),
{
    img.grayscale()
}

/// Relies on `DynamicImage::blur_advanced`: the size and layout are kept.
#[verifier::external_body]
pub(crate) fn gaussian_blur(img: &DynamicImage, kernel: GaussianBlurParameters) -> (r:
    DynamicImage)
    ensures
        raster(r).width == raster(*img).width,
        raster(r).height == raster(*img).height,
        raster(r).color == raster(*img).color,
{
    img.blur_advanced(kernel)
}

} // verus!
