use image::imageops::GaussianBlurParameters;
use image::{ColorType, DynamicImage, ImageFormat, Rgb32FImage, RgbImage, RgbaImage};
use img::transform::{blur, grayscale, reencode, resize, TransformError};
use std::io::Cursor;

fn png_bytes(img: &DynamicImage) -> Vec<u8> {
    let mut buf = Cursor::new(Vec::new());
    img.write_to(&mut buf, ImageFormat::Png).unwrap();
    buf.into_inner()
}

fn red_4x4() -> Vec<u8> {
    let img = RgbaImage::from_pixel(4, 4, image::Rgba([255, 0, 0, 255]));
    png_bytes(&DynamicImage::ImageRgba8(img))
}

fn gradient(width: u32, height: u32) -> Vec<u8> {
    let img = RgbImage::from_fn(width, height, |x, y| {
        image::Rgb([(x * 40) as u8, (y * 40) as u8, ((x + y) * 20) as u8])
    });
    png_bytes(&DynamicImage::ImageRgb8(img))
}

fn checkerboard(width: u32, height: u32) -> Vec<u8> {
    let img = RgbImage::from_fn(width, height, |x, y| {
        if (x + y) % 2 == 0 {
            image::Rgb([255, 255, 255])
        } else {
            image::Rgb([0, 0, 0])
        }
    });
    png_bytes(&DynamicImage::ImageRgb8(img))
}

fn float_image() -> Vec<u8> {
    let img = Rgb32FImage::from_pixel(3, 2, image::Rgb([0.5, 0.25, 1.0]));
    let mut buf = Cursor::new(Vec::new());
    DynamicImage::ImageRgb32F(img)
        .write_to(&mut buf, ImageFormat::Hdr)
        .unwrap();
    buf.into_inner()
}

fn open(bytes: &[u8]) -> DynamicImage {
    image::load_from_memory(bytes).unwrap()
}

#[test]
fn resize_red_4x4_to_2x2() {
    let out = resize(&red_4x4(), 2, 2).unwrap();
    let img = open(&out).to_rgba8();
    assert_eq!(img.dimensions(), (2, 2));
    for p in img.pixels() {
        assert!(p[0] >= 200);
        assert!(p[1] <= 55);
        assert!(p[2] <= 55);
        assert_eq!(p[3], 255);
    }
}

#[test]
fn resize_gives_requested_size_without_keeping_aspect() {
    let out = resize(&gradient(8, 4), 3, 7).unwrap();
    let img = open(&out);
    assert_eq!((img.width(), img.height()), (3, 7));
    assert_eq!(img.color(), ColorType::Rgb8);
}

#[test]
fn resize_upscales() {
    let out = resize(&gradient(2, 3), 10, 9).unwrap();
    let img = open(&out);
    assert_eq!((img.width(), img.height()), (10, 9));
}

#[test]
fn resize_refuses_zero_width() {
    assert_eq!(resize(&red_4x4(), 0, 2), Err(TransformError::InvalidDimensions));
}

#[test]
fn resize_refuses_zero_height() {
    assert_eq!(resize(&red_4x4(), 2, 0), Err(TransformError::InvalidDimensions));
}

#[test]
fn zero_sized_target_is_refused_before_decoding() {
    assert_eq!(resize(&[0u8; 16], 0, 0), Err(TransformError::InvalidDimensions));
}

#[test]
fn all_zero_bytes_fail_to_decode() {
    let junk = [0u8; 64];
    assert_eq!(resize(&junk, 2, 2), Err(TransformError::DecodeError));
    assert_eq!(grayscale(&junk), Err(TransformError::DecodeError));
    assert_eq!(blur(&junk, None), Err(TransformError::DecodeError));
    assert_eq!(reencode(&junk), Err(TransformError::DecodeError));
}

#[test]
fn truncated_png_fails_to_decode() {
    let bytes = red_4x4();
    let cut = &bytes[..20];
    assert_eq!(resize(cut, 2, 2), Err(TransformError::DecodeError));
    assert_eq!(grayscale(cut), Err(TransformError::DecodeError));
    let kernel = GaussianBlurParameters::new_from_sigma(1.0);
    assert_eq!(blur(cut, Some(kernel)), Err(TransformError::DecodeError));
}

#[test]
fn empty_input_fails_to_decode() {
    assert_eq!(grayscale(&[]), Err(TransformError::DecodeError));
}

#[test]
fn float_images_cannot_be_written_as_png() {
    let bytes = float_image();
    assert_eq!(open(&bytes).color(), ColorType::Rgb32F);
    assert_eq!(resize(&bytes, 2, 2), Err(TransformError::EncodeError));
    assert_eq!(grayscale(&bytes), Err(TransformError::EncodeError));
    assert_eq!(blur(&bytes, None), Err(TransformError::EncodeError));
}

#[test]
fn outputs_decode() {
    let input = gradient(5, 4);
    let kernel = GaussianBlurParameters::new_from_sigma(1.5);
    for out in [
        resize(&input, 3, 3).unwrap(),
        grayscale(&input).unwrap(),
        blur(&input, Some(kernel)).unwrap(),
        blur(&input, None).unwrap(),
        reencode(&input).unwrap(),
    ] {
        assert_eq!(image::guess_format(&out).unwrap(), ImageFormat::Png);
        assert!(image::load_from_memory(&out).is_ok());
    }
}

#[test]
fn grayscale_keeps_size_and_yields_luma() {
    let out = grayscale(&gradient(5, 3)).unwrap();
    let img = open(&out);
    assert_eq!((img.width(), img.height()), (5, 3));
    assert_eq!(img.color(), ColorType::L8);
}

#[test]
fn grayscale_keeps_alpha() {
    let out = grayscale(&red_4x4()).unwrap();
    let img = open(&out);
    assert_eq!(img.color(), ColorType::La8);
    assert_eq!((img.width(), img.height()), (4, 4));
}

#[test]
fn grayscale_weights_channels_by_luma() {
    let out = grayscale(&red_4x4()).unwrap();
    let img = open(&out).to_luma_alpha8();
    let p = img.get_pixel(0, 0);
    assert_eq!(p[0], 54);
    assert_eq!(p[1], 255);
}

#[test]
fn grayscale_twice_equals_once() {
    let once = grayscale(&gradient(6, 5)).unwrap();
    let twice = grayscale(&once).unwrap();
    assert_eq!(twice, once);
}

#[test]
fn grayscale_twice_equals_once_with_alpha() {
    let once = grayscale(&red_4x4()).unwrap();
    assert_eq!(grayscale(&once).unwrap(), once);
}

#[test]
fn blur_without_kernel_equals_reencode() {
    let input = gradient(6, 4);
    let blurred = blur(&input, None).unwrap();
    assert_eq!(blurred, reencode(&input).unwrap());
    assert_eq!(open(&blurred).to_rgb8(), open(&input).to_rgb8());
}

#[test]
fn blur_keeps_size_and_layout() {
    let input = gradient(7, 5);
    let out = blur(&input, Some(GaussianBlurParameters::new_from_sigma(2.0))).unwrap();
    let img = open(&out);
    assert_eq!((img.width(), img.height()), (7, 5));
    assert_eq!(img.color(), ColorType::Rgb8);
}

#[test]
fn blur_smooths_a_checkerboard() {
    let input = checkerboard(8, 8);
    let out = blur(&input, Some(GaussianBlurParameters::new_from_sigma(2.0))).unwrap();
    let img = open(&out).to_rgb8();
    let p = img.get_pixel(4, 4);
    assert!(p[0] > 60 && p[0] < 195);
    assert_ne!(open(&out).to_rgb8(), open(&input).to_rgb8());
}

#[test]
fn reencode_keeps_pixels() {
    let input = red_4x4();
    let out = reencode(&input).unwrap();
    assert_eq!(open(&out).to_rgba8(), open(&input).to_rgba8());
}

#[test]
fn other_formats_come_back_as_png() {
    let img = DynamicImage::ImageRgb8(RgbImage::from_pixel(3, 3, image::Rgb([10, 200, 30])));
    let mut buf = Cursor::new(Vec::new());
    img.write_to(&mut buf, ImageFormat::Bmp).unwrap();
    let bmp = buf.into_inner();
    let out = reencode(&bmp).unwrap();
    assert_eq!(image::guess_format(&out).unwrap(), ImageFormat::Png);
    assert_eq!(open(&out).to_rgb8(), img.to_rgb8());
    let resized = resize(&bmp, 2, 2).unwrap();
    assert_eq!(image::guess_format(&resized).unwrap(), ImageFormat::Png);
}

#[test]
fn sixteen_bit_images_round_trip() {
    let img = image::ImageBuffer::<image::Rgba<u16>, Vec<u16>>::from_fn(3, 2, |x, y| {
        image::Rgba([x as u16 * 20000, y as u16 * 30000, 513, 65535])
    });
    let input = png_bytes(&DynamicImage::ImageRgba16(img.clone()));
    let out = reencode(&input).unwrap();
    assert_eq!(open(&out).to_rgba16(), img);
    let once = grayscale(&input).unwrap();
    assert_eq!(open(&once).color(), ColorType::La16);
    assert_eq!(grayscale(&once).unwrap(), once);
}
