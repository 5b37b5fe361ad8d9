use maps::image::{color_to_alpha, crop, to_rgba8, ColorType, Image};
use maps::screenshot::{screenshot_image, Viewport};
use maps::image_io::{encode_image_for_extension, encode_image_for_file, image_from_decoded, load_image_from_bytes, load_image_from_file_bytes, ImageLoadError, ImageSaveError};
use maps::value_colormap::Rgba;

#[test]
fn from_raw_checks_size() {
    assert!(Image::from_raw(2, 2, ColorType::L8, vec![0; 4]).is_some());
    assert!(Image::from_raw(2, 2, ColorType::L8, vec![0; 5]).is_none());
    assert!(Image::from_raw(2, 2, ColorType::Rgb8, vec![0; 8]).is_none());
    assert!(Image::from_raw(2, 2, ColorType::Rgb8, vec![0; 12]).is_some());
    assert!(Image::from_raw(0, 7, ColorType::Rgba8, vec![]).is_some());
    assert!(Image::from_raw(u32::MAX, u32::MAX, ColorType::L8, vec![]).is_none());
}

#[test]
fn to_rgba8_expands_each_layout() {
    let l8 = Image::from_raw(2, 1, ColorType::L8, vec![10, 200]).unwrap();
    let out = to_rgba8(l8);
    assert_eq!(out.color(), ColorType::Rgba8);
    assert_eq!(out.as_raw(), &vec![10, 10, 10, 255, 200, 200, 200, 255]);

    let la8 = Image::from_raw(1, 1, ColorType::La8, vec![7, 9]).unwrap();
    assert_eq!(to_rgba8(la8).into_raw(), vec![7, 7, 7, 9]);

    let rgb8 = Image::from_raw(1, 2, ColorType::Rgb8, vec![1, 2, 3, 4, 5, 6]).unwrap();
    let out = to_rgba8(rgb8);
    assert_eq!((out.width(), out.height()), (1, 2));
    assert_eq!(out.into_raw(), vec![1, 2, 3, 255, 4, 5, 6, 255]);
}

#[test]
fn law_to_rgba8_keeps_rgba_images() {
    let rgba = Image::from_raw(1, 1, ColorType::Rgba8, vec![1, 2, 3, 4]).unwrap();
    assert!(rgba.has_alpha());
    let out = to_rgba8(rgba);
    assert_eq!(out.into_raw(), vec![1, 2, 3, 4]);
}

#[test]
fn color_to_alpha_keys_out_matching_pixels() {
    let mut img =
        Image::from_raw(3, 1, ColorType::Rgba8, vec![1, 2, 3, 4, 9, 9, 9, 9, 1, 2, 3, 4]).unwrap();
    color_to_alpha(&mut img, Some(Rgba([1, 2, 3, 4])));
    assert_eq!(img.as_raw(), &vec![0, 0, 0, 0, 9, 9, 9, 9, 0, 0, 0, 0]);

    let mut gray = Image::from_raw(2, 1, ColorType::L8, vec![5, 6]).unwrap();
    color_to_alpha(&mut gray, Some(Rgba([6, 6, 6, 255])));
    assert_eq!(gray.as_raw(), &vec![5, 0]);

    let mut untouched = Image::from_raw(1, 1, ColorType::La8, vec![5, 6]).unwrap();
    color_to_alpha(&mut untouched, None);
    assert_eq!(untouched.as_raw(), &vec![5, 6]);
}

#[test]
fn law_keyed_color_gone() {
    let mut img = Image::from_raw(2, 1, ColorType::Rgba8, vec![8, 8, 8, 8, 1, 1, 1, 1]).unwrap();
    let key = Rgba([8, 8, 8, 8]);
    color_to_alpha(&mut img, Some(key));
    let once = img.as_raw().clone();
    assert_eq!(once[3], 0);
    color_to_alpha(&mut img, Some(key));
    assert_eq!(img.as_raw(), &once);
}

#[test]
fn load_gray_image_from_bytes() {
    let img = load_image_from_bytes(b"P5\n2 1\n255\n\x00\xff").unwrap();
    assert_eq!((img.width(), img.height(), img.color()), (2, 1, ColorType::L8));
    assert_eq!(img.as_raw(), &vec![0u8, 255]);
}

#[test]
fn load_rgb_image_from_bytes() {
    let img = load_image_from_bytes(b"P6\n1 1\n255\n\x01\x02\x03").unwrap();
    assert_eq!((img.width(), img.height(), img.color()), (1, 1, ColorType::Rgb8));
    assert_eq!(img.as_raw(), &vec![1u8, 2, 3]);
}

#[test]
fn load_image_from_bytes_errors() {
    assert!(matches!(load_image_from_bytes(b"not an image"), Err(ImageLoadError::Decode(_))));
    assert!(matches!(
        load_image_from_bytes(b"P5\n1 1\n65535\n\x01\x02"),
        Err(ImageLoadError::UnsupportedLayout)
    ));
}

#[test]
fn image_from_decoded_checks_size() {
    assert!(matches!(image_from_decoded(None), Err(ImageLoadError::UnsupportedLayout)));
    assert!(matches!(
        image_from_decoded(Some((ColorType::La8, 2, 2, vec![0; 7]))),
        Err(ImageLoadError::BadSize)
    ));
    let img = image_from_decoded(Some((ColorType::La8, 2, 2, vec![9; 8]))).unwrap();
    assert_eq!((img.width(), img.height(), img.color()), (2, 2, ColorType::La8));
}

#[test]
fn crop_keeps_the_rectangle() {
    let img = Image::from_raw(3, 2, ColorType::L8, vec![0, 1, 2, 3, 4, 5]).unwrap();
    let c = crop(&img, 1, 0, 2, 2);
    assert_eq!((c.width(), c.height(), c.color()), (2, 2, ColorType::L8));
    assert_eq!(c.as_raw(), &vec![1u8, 2, 4, 5]);
}

#[test]
fn crop_is_clamped_to_the_image() {
    let img = Image::from_raw(3, 2, ColorType::L8, vec![0, 1, 2, 3, 4, 5]).unwrap();
    let c = crop(&img, 2, 1, 5, 5);
    assert_eq!((c.width(), c.height()), (1, 1));
    assert_eq!(c.as_raw(), &vec![5u8]);
    let outside = crop(&img, 10, 10, 1, 1);
    assert_eq!((outside.width(), outside.height()), (0, 0));
    assert!(outside.as_raw().is_empty());
}

#[test]
fn crop_rgb_pixels() {
    let img = Image::from_raw(2, 2, ColorType::Rgb8, (0..12).collect()).unwrap();
    let c = crop(&img, 1, 1, 1, 1);
    assert_eq!(c.color(), ColorType::Rgb8);
    assert_eq!(c.as_raw(), &vec![9u8, 10, 11]);
}

#[test]
fn screenshot_of_viewport() {
    let captured = Image::from_raw(2, 2, ColorType::Rgba8, (0..16).collect()).unwrap();
    let full = screenshot_image(captured, Viewport::Full, 1, 1, 1, 1);
    assert_eq!(full.as_raw(), &(0..16).collect::<Vec<u8>>());
    let captured = Image::from_raw(2, 2, ColorType::Rgba8, (0..16).collect()).unwrap();
    let clipped = screenshot_image(captured, Viewport::Clipped, 0, 1, 2, 1);
    assert_eq!((clipped.width(), clipped.height()), (2, 1));
    assert_eq!(clipped.as_raw(), &(8..16).collect::<Vec<u8>>());
}

#[test]
fn load_image_from_file_bytes_uses_extension() {
    let img = load_image_from_file_bytes(b"P5\n2 1\n255\n\x00\xff", "pgm").unwrap();
    assert_eq!((img.width(), img.height(), img.color()), (2, 1, ColorType::L8));
    assert_eq!(img.as_raw(), &vec![0u8, 255]);
    assert!(matches!(
        load_image_from_file_bytes(b"P5\n2 1\n255\n\x00\xff", "unknownext"),
        Err(ImageLoadError::Decode(_))
    ));
}

#[test]
fn encode_and_decode_png() {
    let img = Image::from_raw(2, 2, ColorType::Rgba8, (0..16).collect()).unwrap();
    let bytes = encode_image_for_file(&img, "/tmp/out.png").unwrap();
    let back = load_image_from_file_bytes(&bytes, "png").unwrap();
    assert_eq!((back.width(), back.height(), back.color()), (2, 2, ColorType::Rgba8));
    assert_eq!(back.as_raw(), img.as_raw());
    assert!(matches!(encode_image_for_file(&img, "out.unknownext"), Err(ImageSaveError::UnknownExtension)));
    assert!(matches!(encode_image_for_file(&img, "/tmp/noext"), Err(ImageSaveError::UnknownExtension)));
    assert!(matches!(encode_image_for_extension(&img, ""), Err(ImageSaveError::UnknownExtension)));
    let same = encode_image_for_extension(&img, "PNG").unwrap();
    assert_eq!(same, bytes);
}
