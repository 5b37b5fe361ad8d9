//! Decoding images from bytes.
use ::image::{DynamicImage, ImageBuffer};
use vstd::prelude::*;

use crate::file_dialog_builder::{extension_of, known_extension};
use crate::image::{byte_len, fits, rgba_size_fits, ColorType, Image, ImageView};

verus! {

#[verifier::external_type_specification]
#[verifier::external_body]
pub struct ExImageError(::image::ImageError);

/// Why bytes did not become an image of the library.
#[derive(Debug)]
pub enum ImageLoadError {
    /// The image crate could not decode the bytes.
    Decode(::image::ImageError),
    /// The decoded image has a pixel layout other than 8-bit gray, gray-alpha, RGB or RGBA.
    UnsupportedLayout,
    /// The decoded samples are not exactly the pixels of the decoded size, or an RGBA copy
    /// of the image would not fit into memory.
    BadSize,
}

/// The view of a decoder's output: its layout, width, height and samples, or `None` for
/// a layout that the library does not hold.
pub open spec fn decoded_view(d: Option<(ColorType, u32, u32, Vec<u8>)>) -> Option<
    (ColorType, u32, u32, Seq<u8>),
> {
    match d {
        Some((color, width, height, samples)) => Some((color, width, height, samples@)),
        None => None,
    }
}

/// What the image crate decodes from the contents `bytes` of an image file with the
/// extension `extension` (see `decode_image_file`): `None` where decoding fails, else the
/// decoded image as `decoded_view` gives it.
pub uninterp spec fn decoded_image_file(bytes: Seq<u8>, extension: Seq<char>) -> Option<
    Option<(ColorType, u32, u32, Seq<u8>)>,
>;

/// What the image crate decodes from `bytes` whose format it guesses from their content
/// (see `decode_image`): `None` where guessing or decoding fails, else the decoded image as
/// `decoded_view` gives it.
pub uninterp spec fn decoded_image_bytes(bytes: Seq<u8>) -> Option<
    Option<(ColorType, u32, u32, Seq<u8>)>,
>;

/// Decodes `bytes` with the image crate: `image::guess_format` guesses the format from the
/// content with the crate's built-in signatures (as `ImageReader::with_guessed_format` does
/// when no decoding hook is registered), and `ImageReader::with_format` and `decode` decode
/// it with the crate's default limits. The decoded image is handed out as its layout, width,
/// height and samples, or as `None` for a layout other than 8-bit gray, gray-alpha, RGB or
/// RGBA. Claimed: the outcome is `decoded_image_bytes` of the bytes (only built-in formats
/// take part); the samples of a decoded image are exactly its pixels, since
/// `DynamicImage::from_decoder` reads `ImageDecoder::total_bytes` of them, which the crate's
/// decoders leave at width times height times the bytes of a pixel.
#[verifier::external_body]
fn decode_image(bytes: &[u8]) -> (r: Result<Option<(ColorType, u32, u32, Vec<u8>)>, ::image::ImageError>)
    ensures
        r is Err ==> decoded_image_bytes(bytes@) is None,
        r matches Ok(d) ==> decoded_image_bytes(bytes@) == Some(decoded_view(d)),
        r matches Ok(Some((color, width, height, samples))) ==> samples@.len() == byte_len(
            color,
            width * height,
        ),
{
    let format = ::image::guess_format(bytes)?;
    let img = ::image::ImageReader::with_format(std::io::Cursor::new(bytes), format).decode()?;
    let (w, h) = (img.width(), img.height());
    Ok(match img {
        DynamicImage::ImageLuma8(b) => Some((ColorType::L8, w, h, b.into_raw())),
        DynamicImage::ImageLumaA8(b) => Some((ColorType::La8, w, h, b.into_raw())),
        DynamicImage::ImageRgb8(b) => Some((ColorType::Rgb8, w, h, b.into_raw())),
        DynamicImage::ImageRgba8(b) => Some((ColorType::Rgba8, w, h, b.into_raw())),
        _ => None,
    })
}

/// Decodes the contents of an image file with the image crate, in the format that
/// `ImageFormat::from_extension` gives for the file's `extension` (none for an unknown
/// extension, which `ImageReader::decode` then refuses), without the crate's decoding
/// limits (`ImageReader::no_limits`), as `ImageReader::open` and `decode` read a file.
/// The decoded image is handed out as in `decode_image`. Claimed: the outcome is
/// `decoded_image_file` of the bytes and the extension (a built-in format is set, so no
/// registered hook takes part); the samples of a decoded image are exactly its pixels,
/// since `DynamicImage::from_decoder` reads `ImageDecoder::total_bytes` of them, which the
/// crate's decoders leave at width times height times the bytes of a pixel.
#[verifier::external_body]
fn decode_image_file(bytes: &[u8], extension: &str) -> (r: Result<
    Option<(ColorType, u32, u32, Vec<u8>)>,
    ::image::ImageError,
>)
    ensures
        r is Err ==> decoded_image_file(bytes@, extension@) is None,
        r matches Ok(d) ==> decoded_image_file(bytes@, extension@) == Some(decoded_view(d)),
        r matches Ok(Some((color, width, height, samples))) ==> samples@.len() == byte_len(
            color,
            width * height,
        ),
{
    let mut reader = ::image::ImageReader::new(std::io::Cursor::new(bytes));
    if let Some(format) = ::image::ImageFormat::from_extension(extension) {
        reader.set_format(format);
    }
    reader.no_limits();
    let img = reader.decode()?;
    let (w, h) = (img.width(), img.height());
    Ok(match img {
        DynamicImage::ImageLuma8(b) => Some((ColorType::L8, w, h, b.into_raw())),
        DynamicImage::ImageLumaA8(b) => Some((ColorType::La8, w, h, b.into_raw())),
        DynamicImage::ImageRgb8(b) => Some((ColorType::Rgb8, w, h, b.into_raw())),
        DynamicImage::ImageRgba8(b) => Some((ColorType::Rgba8, w, h, b.into_raw())),
        _ => None,
    })
}

/// What the image crate encodes an image with the given layout, size and samples into,
/// for a file with the extension `extension` (see `encode_image`): `None` where encoding
/// fails, `Some(None)` for an extension that names no format the crate knows, else the
/// encoded bytes.
pub uninterp spec fn encoded_image(
    color: ColorType,
    width: u32,
    height: u32,
    pixels: Seq<u8>,
    extension: Seq<char>,
) -> Option<Option<Seq<u8>>>;

/// Encodes an image with the image crate into the format that `ImageFormat::from_extension`
/// gives for `extension`, as `DynamicImage::save` writes a file (`DynamicImage::write_to`);
/// `Ok(None)` where the extension names no format. Claimed: the outcome is `encoded_image`
/// of the image and the extension, and an empty extension names no format.
#[verifier::external_body]
fn encode_image(color: ColorType, width: u32, height: u32, pixels: Vec<u8>, extension: &str) -> (r:
    Result<Option<Vec<u8>>, ::image::ImageError>)
    requires
        fits(width, height, color, pixels@.len() as int),
    ensures
        r is Err ==> encoded_image(color, width, height, pixels@, extension@) is None,
        r matches Ok(o) ==> encoded_image(color, width, height, pixels@, extension@) == Some(
            match o {
                Some(b) => Some(b@),
                None => None,
            },
        ),
        extension@.len() == 0 ==> r matches Ok(None),
{
    let Some(format) = ::image::ImageFormat::from_extension(extension) else { return Ok(None) };
    let img = match color {
        ColorType::L8 => DynamicImage::ImageLuma8(ImageBuffer::from_raw(width, height, pixels).unwrap()),
        ColorType::La8 => DynamicImage::ImageLumaA8(ImageBuffer::from_raw(width, height, pixels).unwrap()),
        ColorType::Rgb8 => DynamicImage::ImageRgb8(ImageBuffer::from_raw(width, height, pixels).unwrap()),
        ColorType::Rgba8 => DynamicImage::ImageRgba8(ImageBuffer::from_raw(width, height, pixels).unwrap()),
    };
    let mut out = std::io::Cursor::new(Vec::new());
    img.write_to(&mut out, format)?;
    Ok(Some(out.into_inner()))
}

/// Why an image was not encoded.
#[derive(Debug)]
pub enum ImageSaveError {
    /// The file has no extension, or one that names no image format.
    UnknownExtension,
    /// The image crate could not encode the image.
    Encode(::image::ImageError),
}

/// Whether `r` is what a decoder's output `decoded` (as `decoded_view` gives it) makes:
/// an unsupported layout is refused; samples that are exactly the pixels of a size whose
/// RGBA copy fits into memory make that image; other samples are refused as `BadSize`.
pub open spec fn made_from_decoded(decoded: Option<(ColorType, u32, u32, Seq<u8>)>, r: Result<
    Image,
    ImageLoadError,
>) -> bool {
    match decoded {
        None => r matches Err(ImageLoadError::UnsupportedLayout),
        Some((color, width, height, samples)) => if fits(width, height, color, samples.len() as int) {
            r matches Ok(img) && img@ == (ImageView {
                width: width as nat,
                height: height as nat,
                color,
                bytes: samples,
            })
        } else {
            r matches Err(ImageLoadError::BadSize)
        },
    }
}

/// The image that a decoder's output makes: its layout, width, height and samples
/// (`None` for a layout that the library does not hold).
pub fn image_from_decoded(decoded: Option<(ColorType, u32, u32, Vec<u8>)>) -> (r: Result<
    Image,
    ImageLoadError,
>)
    ensures
        made_from_decoded(decoded_view(decoded), r),
{
    match decoded {
        None => Err(ImageLoadError::UnsupportedLayout),
        Some((color, width, height, samples)) => match Image::from_raw(width, height, color, samples) {
            Some(img) => Ok(img),
            None => Err(ImageLoadError::BadSize),
        },
    }
}

/// Load an image from a bytes stream (e.g. in wasm applications).
/// The image format is guessed automatically from the content.
/// A decoding failure is `ImageLoadError::Decode`; what decoded becomes an image as
/// `image_from_decoded` says, so a loaded image holds exactly its pixels, and `BadSize`
/// comes only from an image whose RGBA copy would not fit into memory.
pub fn load_image_from_bytes(bytes: &[u8]) -> (r: Result<Image, ImageLoadError>)
    ensures
        r matches Ok(img) ==> fits(
            img@.width as u32,
            img@.height as u32,
            img@.color,
            img@.bytes.len() as int,
        ),
        decoded_image_bytes(bytes@) is None ==> r matches Err(ImageLoadError::Decode(_)),
        decoded_image_bytes(bytes@) matches Some(d) ==> made_from_decoded(d, r),
        r matches Err(ImageLoadError::BadSize) ==> decoded_image_bytes(bytes@) matches Some(
            Some((color, width, height, samples)),
        ) && !rgba_size_fits(width, height),
{
    match decode_image(bytes) {
        Ok(decoded) => image_from_decoded(decoded),
        Err(e) => Err(ImageLoadError::Decode(e)),
    }
}

/// Decodes the contents of an image file whose name has the extension `extension`
/// (the format follows from the extension, and no decoding limits apply).
/// A decoding failure is `ImageLoadError::Decode`; what decoded becomes an image as
/// `image_from_decoded` says; `BadSize` comes only from an image whose RGBA copy would
/// not fit into memory.
pub fn load_image_from_file_bytes(bytes: &[u8], extension: &str) -> (r: Result<Image, ImageLoadError>)
    ensures
        decoded_image_file(bytes@, extension@) is None ==> r matches Err(ImageLoadError::Decode(_)),
        decoded_image_file(bytes@, extension@) matches Some(d) ==> made_from_decoded(d, r),
        r matches Err(ImageLoadError::BadSize) ==> decoded_image_file(bytes@, extension@) matches Some(
            Some((color, width, height, samples)),
        ) && !rgba_size_fits(width, height),
{
    match decode_image_file(bytes, extension) {
        Ok(decoded) => image_from_decoded(decoded),
        Err(e) => Err(ImageLoadError::Decode(e)),
    }
}

/// Whether `r` is what encoding `img` for a file with the extension `extension` gives:
/// the image crate's encoding error, `UnknownExtension` for an extension that names no
/// format, or the encoded bytes (`encoded_image`).
pub open spec fn encoded_as(r: Result<Vec<u8>, ImageSaveError>, img: ImageView, extension: Seq<char>) -> bool {
    match encoded_image(img.color, img.width as u32, img.height as u32, img.bytes, extension) {
        None => r matches Err(ImageSaveError::Encode(_)),
        Some(None) => r matches Err(ImageSaveError::UnknownExtension),
        Some(Some(b)) => r matches Ok(v) && v@ == b,
    }
}

/// The contents of an image file with the extension `extension`, in the format that the
/// extension names; an empty extension names none.
pub fn encode_image_for_extension(img: &Image, extension: &str) -> (r: Result<Vec<u8>, ImageSaveError>)
    ensures
        encoded_as(r, img@, extension@),
        extension@.len() == 0 ==> r matches Err(ImageSaveError::UnknownExtension),
{
    let pixels = img.as_raw().clone();
    match encode_image(img.color(), img.width(), img.height(), pixels, extension) {
        Ok(Some(bytes)) => Ok(bytes),
        Ok(None) => Err(ImageSaveError::UnknownExtension),
        Err(e) => Err(ImageSaveError::Encode(e)),
    }
}

/// The contents of an image file named `file_name`, in the format that its extension
/// names, as `std::path::Path` finds the extension on this platform (see
/// `encode_image_for_extension`). A file name without an extension names no format; for
/// portable names the extension is the one that `known_extension` gives.
pub fn encode_image_for_file(img: &Image, file_name: &str) -> (r: Result<Vec<u8>, ImageSaveError>)
    ensures
        known_extension(file_name@) == Some(None::<Seq<char>>) ==> r matches Err(
            ImageSaveError::UnknownExtension,
        ),
        known_extension(file_name@) matches Some(Some(e)) ==> encoded_as(r, img@, e),
{
    match extension_of(file_name) {
        Some(extension) => encode_image_for_extension(img, extension.as_str()),
        None => Err(ImageSaveError::UnknownExtension),
    }
}


/// A decoded image of a layout that the library holds, whose samples are exactly its pixels
/// and whose RGBA copy fits into memory, is loaded as it is: same layout, size and samples.
/// Only an RGBA copy too large for memory makes such an image `BadSize`, and no image of
/// these layouts is refused as `UnsupportedLayout`.
pub proof fn lemma_decoded_image_is_kept(
    color: ColorType,
    width: u32,
    height: u32,
    samples: Seq<u8>,
    r: Result<Image, ImageLoadError>,
)
    requires
        made_from_decoded(Some((color, width, height, samples)), r),
        samples.len() == byte_len(color, width * height),
    ensures
        !(r matches Err(ImageLoadError::UnsupportedLayout)),
        rgba_size_fits(width, height) ==> (r matches Ok(img) && img@.color == color
            && img@.width == width && img@.height == height && img@.bytes == samples),
        !rgba_size_fits(width, height) ==> r matches Err(ImageLoadError::BadSize),
{
}

} // verus!
