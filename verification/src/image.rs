//! 8-bit raster images and the pixel operations that the viewer applies to them.
use ::image::{DynamicImage, ImageBuffer};
use vstd::prelude::*;

use crate::value_colormap::Rgba;

verus! {

/// Pixel layouts of 8-bit images.
#[derive(Debug, Clone, Copy, PartialEq, Eq, Structural)]
pub enum ColorType {
    /// Gray.
    L8,
    /// Gray with alpha.
    La8,
    /// Red, green, blue.
    Rgb8,
    /// Red, green, blue, alpha.
    Rgba8,
}

/// Number of bytes per pixel of a layout.
pub open spec fn channels(color: ColorType) -> nat {
    match color {
        ColorType::L8 => 1,
        ColorType::La8 => 2,
        ColorType::Rgb8 => 3,
        ColorType::Rgba8 => 4,
    }
}

/// Number of bytes of `n` pixels of a layout.
pub open spec fn byte_len(color: ColorType, n: int) -> int {
    match color {
        ColorType::L8 => n,
        ColorType::La8 => 2 * n,
        ColorType::Rgb8 => 3 * n,
        ColorType::Rgba8 => 4 * n,
    }
}

/// The bytes of pixel `p` in a buffer of pixels with layout `color`.
pub open spec fn pixel(color: ColorType, bytes: Seq<u8>, p: int) -> Seq<u8> {
    match color {
        ColorType::L8 => seq![bytes[p]],
        ColorType::La8 => seq![bytes[2 * p], bytes[2 * p + 1]],
        ColorType::Rgb8 => seq![bytes[3 * p], bytes[3 * p + 1], bytes[3 * p + 2]],
        ColorType::Rgba8 => seq![bytes[4 * p], bytes[4 * p + 1], bytes[4 * p + 2], bytes[4 * p + 3]],
    }
}

/// The RGBA color of the bytes of a pixel with layout `color`:
/// gray is spread over red, green and blue, and a missing alpha is opaque.
pub open spec fn rgba_of(color: ColorType, px: Seq<u8>) -> Rgba {
    match color {
        ColorType::L8 => Rgba([px[0], px[0], px[0], 255]),
        ColorType::La8 => Rgba([px[0], px[0], px[0], px[1]]),
        ColorType::Rgb8 => Rgba([px[0], px[1], px[2], 255]),
        ColorType::Rgba8 => Rgba([px[0], px[1], px[2], px[3]]),
    }
}

/// A pixel of `channels(color)` zero bytes.
pub open spec fn zero_pixel(color: ColorType) -> Seq<u8> {
    Seq::new(channels(color), |i: int| 0u8)
}

/// An 8-bit raster image stored row by row, pixel by pixel.
pub struct Image {
    width: u32,
    height: u32,
    color: ColorType,
    pixels: Vec<u8>,
}

/// The abstract contents of an image.
pub struct ImageView {
    pub width: nat,
    pub height: nat,
    pub color: ColorType,
    pub bytes: Seq<u8>,
}

impl ImageView {
    /// Number of pixels.
    pub open spec fn len(self) -> int {
        (self.width * self.height) as int
    }

    /// The bytes of pixel `p`.
    pub open spec fn pixel(self, p: int) -> Seq<u8> {
        pixel(self.color, self.bytes, p)
    }

    /// The RGBA color of pixel `p`.
    pub open spec fn rgba(self, p: int) -> Rgba {
        rgba_of(self.color, self.pixel(p))
    }
}

impl View for Image {
    type V = ImageView;

    closed spec fn view(&self) -> ImageView {
        ImageView {
            width: self.width as nat,
            height: self.height as nat,
            color: self.color,
            bytes: self.pixels@,
        }
    }
}

/// Whether an RGBA copy of an image of the given size fits into memory: its samples, and
/// those of each of its rows, can be counted in a `usize`.
pub open spec fn rgba_size_fits(width: u32, height: u32) -> bool {
    &&& 4 * width <= usize::MAX
    &&& 4 * (width * height) <= usize::MAX
}

/// Whether a buffer of `len` bytes holds exactly the pixels of an image of the given size,
/// and an RGBA copy of it fits into memory.
pub open spec fn fits(width: u32, height: u32, color: ColorType, len: int) -> bool {
    &&& len == byte_len(color, width * height)
    &&& rgba_size_fits(width, height)
}

fn byte_count(color: ColorType, count: usize) -> (n: usize)
    requires
        4 * count <= usize::MAX,
    ensures
        n == byte_len(color, count as int),
{
    match color {
        ColorType::L8 => count,
        ColorType::La8 => 2 * count,
        ColorType::Rgb8 => 3 * count,
        ColorType::Rgba8 => 4 * count,
    }
}

impl Image {
    #[verifier::type_invariant]
    spec fn well_formed(self) -> bool {
        fits(self.width, self.height, self.color, self.pixels@.len() as int)
    }

    /// Creates an image from its raw bytes.
    /// Returns `None` if the buffer does not hold exactly `width * height` pixels of the layout,
    /// or if an RGBA copy of the image would not fit into memory (`rgba_size_fits`).
    pub fn from_raw(width: u32, height: u32, color: ColorType, pixels: Vec<u8>) -> (r: Option<
        Image,
    >)
        ensures
            r is Some <==> fits(width, height, color, pixels@.len() as int),
            r matches Some(img) ==> img@ == (ImageView {
                width: width as nat,
                height: height as nat,
                color,
                bytes: pixels@,
            }),
    {
        let count = (width as u64).checked_mul(height as u64);
        let count = match count {
            Some(c) => c,
            None => {
                return None;
            },
        };
        if count > (usize::MAX as u64) / 4 || (width as u64) > (usize::MAX as u64) / 4 {
            return None;
        }
        let count = count as usize;
        if pixels.len() != byte_count(color, count) {
            return None;
        }
        Some(Image { width, height, color, pixels })
    }

    /// Width in pixels.
    pub fn width(&self) -> (w: u32)
        ensures
            w == self@.width,
    {
        self.width
    }

    /// Height in pixels.
    pub fn height(&self) -> (h: u32)
        ensures
            h == self@.height,
    {
        self.height
    }

    /// Pixel layout.
    pub fn color(&self) -> (c: ColorType)
        ensures
            c == self@.color,
    {
        self.color
    }

    /// The raw bytes, row by row: exactly the pixels of the image's size.
    pub fn as_raw(&self) -> (b: &Vec<u8>)
        ensures
            b@ == self@.bytes,
            fits(self@.width as u32, self@.height as u32, self@.color, b@.len() as int),
    {
        proof {
            use_type_invariant(self);
        }
        &self.pixels
    }

    /// Consumes the image and returns its raw bytes.
    pub fn into_raw(self) -> (b: Vec<u8>)
        ensures
            b@ == self@.bytes,
    {
        self.pixels
    }

    /// Whether the layout has an alpha channel.
    pub fn has_alpha(&self) -> (b: bool)
        ensures
            b == (self@.color == ColorType::La8 || self@.color == ColorType::Rgba8),
    {
        match self.color {
            ColorType::La8 | ColorType::Rgba8 => true,
            _ => false,
        }
    }
}

/// The bytes of an RGBA image whose pixels are the RGBA colors of the pixels of `img`.
pub open spec fn rgba_bytes_of(img: ImageView) -> Seq<u8> {
    Seq::new(
        (4 * img.len()) as nat,
        |i: int| img.rgba(i / 4).0[i % 4],
    )
}

fn expand_to_rgba(color: ColorType, src: &Vec<u8>, count: usize) -> (out: Vec<u8>)
    requires
        src@.len() == byte_len(color, count as int),
        4 * count <= usize::MAX,
    ensures
        out@.len() == 4 * count,
        forall|p: int|
            0 <= p < count ==> #[trigger] pixel(ColorType::Rgba8, out@, p) == seq![
                rgba_of(color, pixel(color, src@, p)).0[0],
                rgba_of(color, pixel(color, src@, p)).0[1],
                rgba_of(color, pixel(color, src@, p)).0[2],
                rgba_of(color, pixel(color, src@, p)).0[3],
            ],
{
    let mut out: Vec<u8> = Vec::new();
    let mut p: usize = 0;
    while p < count
        invariant
            src@.len() == byte_len(color, count as int),
            4 * count <= usize::MAX,
            p <= count,
            out@.len() == 4 * p,
            forall|q: int|
                0 <= q < p ==> #[trigger] pixel(ColorType::Rgba8, out@, q) == seq![
                    rgba_of(color, pixel(color, src@, q)).0[0],
                    rgba_of(color, pixel(color, src@, q)).0[1],
                    rgba_of(color, pixel(color, src@, q)).0[2],
                    rgba_of(color, pixel(color, src@, q)).0[3],
                ],
        decreases count - p,
    {
        let ghost before = out@;
        let (r, g, b, a) = match color {
            ColorType::L8 => {
                let l = src[p];
                (l, l, l, 255u8)
            },
            ColorType::La8 => {
                let l = src[2 * p];
                (l, l, l, src[2 * p + 1])
            },
            ColorType::Rgb8 => (src[3 * p], src[3 * p + 1], src[3 * p + 2], 255u8),
            ColorType::Rgba8 => (src[4 * p], src[4 * p + 1], src[4 * p + 2], src[4 * p + 3]),
        };
        out.push(r);
        out.push(g);
        out.push(b);
        out.push(a);
        proof {
            assert forall|q: int| 0 <= q < p + 1 implies #[trigger] pixel(
                ColorType::Rgba8,
                out@,
                q,
            ) == seq![
                rgba_of(color, pixel(color, src@, q)).0[0],
                rgba_of(color, pixel(color, src@, q)).0[1],
                rgba_of(color, pixel(color, src@, q)).0[2],
                rgba_of(color, pixel(color, src@, q)).0[3],
            ] by {
                if q < p {
                    assert(pixel(ColorType::Rgba8, out@, q) =~= pixel(ColorType::Rgba8, before, q));
                } else {
                    assert(pixel(ColorType::Rgba8, out@, q) =~= seq![r, g, b, a]);
                }
            }
        }
        p = p + 1;
    }
    out
}

/// Converts an image to the RGBA layout; an RGBA image is returned as it is.
pub fn to_rgba8(img: Image) -> (out: Image)
    ensures
        out@.color == ColorType::Rgba8,
        out@.width == img@.width,
        out@.height == img@.height,
        out@.bytes.len() == 4 * img@.len(),
        forall|p: int| 0 <= p < img@.len() ==> #[trigger] out@.rgba(p) == img@.rgba(p),
        img@.color == ColorType::Rgba8 ==> out@ == img@,
{
    proof {
        use_type_invariant(&img);
    }
    if img.color == ColorType::Rgba8 {
        return img;
    }
    let count: usize = (img.width as usize) * (img.height as usize);
    let out_pixels = expand_to_rgba(img.color, &img.pixels, count);
    let out = Image { width: img.width, height: img.height, color: ColorType::Rgba8, pixels: out_pixels };
    proof {
        assert forall|p: int| 0 <= p < img@.len() implies #[trigger] out@.rgba(p) == img@.rgba(p) by {
            assert(pixel(ColorType::Rgba8, out_pixels@, p)[0] == img@.rgba(p).0[0]);
            assert(pixel(ColorType::Rgba8, out_pixels@, p)[1] == img@.rgba(p).0[1]);
            assert(pixel(ColorType::Rgba8, out_pixels@, p)[2] == img@.rgba(p).0[2]);
            assert(pixel(ColorType::Rgba8, out_pixels@, p)[3] == img@.rgba(p).0[3]);
            assert(out@.rgba(p).0 =~= img@.rgba(p).0);
        }
    }
    out
}

/// Whether pixel `p` of `img` has the RGBA color `c`.
pub open spec fn pixel_matches(img: ImageView, p: int, c: Rgba) -> bool {
    img.rgba(p) == c
}

fn pixel_rgba(color: ColorType, bytes: &Vec<u8>, p: usize) -> (c: Rgba)
    requires
        byte_len(color, p + 1) <= bytes.len(),
    ensures
        c == rgba_of(color, pixel(color, bytes@, p as int)),
{
    let c = match color {
        ColorType::L8 => Rgba([bytes[p], bytes[p], bytes[p], 255]),
        ColorType::La8 => Rgba([bytes[2 * p], bytes[2 * p], bytes[2 * p], bytes[2 * p + 1]]),
        ColorType::Rgb8 => Rgba([bytes[3 * p], bytes[3 * p + 1], bytes[3 * p + 2], 255]),
        ColorType::Rgba8 => Rgba(
            [bytes[4 * p], bytes[4 * p + 1], bytes[4 * p + 2], bytes[4 * p + 3]],
        ),
    };
    proof {
        assert(c.0 =~= rgba_of(color, pixel(color, bytes@, p as int)).0);
    }
    c
}

fn same_color(a: Rgba, b: Rgba) -> (r: bool)
    ensures
        r == (a == b),
{
    let r = a.0[0] == b.0[0] && a.0[1] == b.0[1] && a.0[2] == b.0[2] && a.0[3] == b.0[3];
    proof {
        if r {
            assert(a.0 =~= b.0);
        }
    }
    r
}

/// In-place conversion of all pixels with the RGBA color `color` to zero bytes
/// (transparent black in RGBA images), if a color is set.
pub fn color_to_alpha(img: &mut Image, color: Option<Rgba>)
    ensures
        final(img)@.width == old(img)@.width,
        final(img)@.height == old(img)@.height,
        final(img)@.color == old(img)@.color,
        final(img)@.bytes.len() == old(img)@.bytes.len(),
        forall|p: int|
            0 <= p < old(img)@.len() ==> #[trigger] final(img)@.pixel(p) == match color {
                Some(c) => keyed_pixel(old(img)@, c, p),
                None => old(img)@.pixel(p),
            },
{
    let c = match color {
        Some(c) => c,
        None => {
            return;
        },
    };
    proof {
        use_type_invariant(&*img);
    }
    let ghost start = img@;
    let mut taken = Image { width: 0, height: 0, color: ColorType::L8, pixels: Vec::new() };
    std::mem::swap(img, &mut taken);
    let Image { width, height, color: layout, mut pixels } = taken;
    let count: usize = (width as usize) * (height as usize);
    let mut p: usize = 0;
    while p < count
        invariant
            count == start.len(),
            start.width == width,
            start.height == height,
            start.color == layout,
            fits(width, height, layout, start.bytes.len() as int),
            p <= count,
            pixels@.len() == start.bytes.len(),
            forall|q: int|
                p <= q < count ==> #[trigger] pixel(layout, pixels@, q) == start.pixel(q),
            forall|q: int|
                0 <= q < p ==> #[trigger] pixel(layout, pixels@, q) == (if pixel_matches(
                    start,
                    q,
                    c,
                ) {
                    zero_pixel(layout)
                } else {
                    start.pixel(q)
                }),
        decreases count - p,
    {
        let ghost before = pixels@;
        assert(pixel(layout, pixels@, p as int) == start.pixel(p as int));
        let here = pixel_rgba(layout, &pixels, p);
        if same_color(here, c) {
            match layout {
                ColorType::L8 => {
                    pixels.set(p, 0);
                },
                ColorType::La8 => {
                    pixels.set(2 * p, 0);
                    pixels.set(2 * p + 1, 0);
                },
                ColorType::Rgb8 => {
                    pixels.set(3 * p, 0);
                    pixels.set(3 * p + 1, 0);
                    pixels.set(3 * p + 2, 0);
                },
                ColorType::Rgba8 => {
                    pixels.set(4 * p, 0);
                    pixels.set(4 * p + 1, 0);
                    pixels.set(4 * p + 2, 0);
                    pixels.set(4 * p + 3, 0);
                },
            }
            proof {
                assert(pixel(layout, pixels@, p as int) =~= zero_pixel(layout));
            }
        }
        proof {
            assert forall|q: int| 0 <= q < count && q != p implies #[trigger] pixel(
                layout,
                pixels@,
                q,
            ) == pixel(layout, before, q) by {
                assert(pixel(layout, pixels@, q) =~= pixel(layout, before, q));
            }
        }
        p = p + 1;
    }
    *img = Image { width, height, color: layout, pixels };
}

/// Pixel `p` of `img` after keying out the color `c`.
pub open spec fn keyed_pixel(img: ImageView, c: Rgba, p: int) -> Seq<u8> {
    if pixel_matches(img, p, c) {
        zero_pixel(img.color)
    } else {
        img.pixel(p)
    }
}

/// Keying out a color zeroes a pixel exactly when its RGBA color equals the key in all four
/// channels (red, green, blue and alpha); a pixel that differs in any channel keeps its bytes.
pub proof fn lemma_keyed_exactly_on_match(img: ImageView, c: Rgba, p: int)
    ensures
        ({
            let px = img.rgba(p);
            if px.0[0] == c.0[0] && px.0[1] == c.0[1] && px.0[2] == c.0[2] && px.0[3] == c.0[3] {
                keyed_pixel(img, c, p) == zero_pixel(img.color)
            } else {
                keyed_pixel(img, c, p) == img.pixel(p)
            }
        }),
{
    let px = img.rgba(p);
    if px.0[0] == c.0[0] && px.0[1] == c.0[1] && px.0[2] == c.0[2] && px.0[3] == c.0[3] {
        assert(px.0 =~= c.0);
    }
}

/// After keying out a color, no pixel shows that color any more, unless the color is the
/// one of a pixel of zero bytes; in RGBA images the keyed pixels become fully transparent.
pub proof fn lemma_keyed_color_gone(img: ImageView, c: Rgba, p: int)
    ensures
        rgba_of(img.color, keyed_pixel(img, c, p)) == c ==> c == rgba_of(
            img.color,
            zero_pixel(img.color),
        ),
        img.color == ColorType::Rgba8 && pixel_matches(img, p, c) ==> rgba_of(
            img.color,
            keyed_pixel(img, c, p),
        ).0[3] == 0,
{
}


/// The rectangle `(x0, y0, cw, ch)` that cropping an image of `width` x `height` pixels at
/// (`x`, `y`) to `w` x `h` pixels keeps: the corner is clamped into the image, and the size
/// to what is left of the image from there.
pub open spec fn crop_rect(width: int, height: int, x: int, y: int, w: int, h: int) -> (
    int,
    int,
    int,
    int,
) {
    let x0 = if x < width {
        x
    } else {
        width
    };
    let y0 = if y < height {
        y
    } else {
        height
    };
    (x0, y0, if w < width - x0 {
        w
    } else {
        width - x0
    }, if h < height - y0 {
        h
    } else {
        height - y0
    })
}

/// The pixel of an image `width` pixels wide that pixel `q` of its crop of width `cw`
/// with corner (`x0`, `y0`) shows.
pub open spec fn crop_source(width: int, x0: int, y0: int, cw: int, q: int) -> int {
    (y0 + q / cw) * width + x0 + q % cw
}

/// Whether `samples` are the samples of the cut-out of `img` delimited by the rectangle at
/// (`x`, `y`) of `w` x `h` pixels, clamped to the image as `crop_rect` says: exactly its
/// pixels, row by row.
pub open spec fn holds_crop(samples: Seq<u8>, img: ImageView, x: int, y: int, w: int, h: int) -> bool {
    let (x0, y0, cw, ch) = crop_rect(img.width as int, img.height as int, x, y, w, h);
    &&& samples.len() == byte_len(img.color, cw * ch)
    &&& forall|q: int|
        0 <= q < cw * ch ==> #[trigger] pixel(img.color, samples, q) == img.pixel(
            crop_source(img.width as int, x0, y0, cw, q),
        )
}

/// Whether `out` is the cut-out of `img` delimited by the rectangle at (`x`, `y`) of
/// `w` x `h` pixels, clamped to the image as `crop_rect` says.
pub open spec fn is_crop_of(out: ImageView, img: ImageView, x: int, y: int, w: int, h: int) -> bool {
    let (x0, y0, cw, ch) = crop_rect(img.width as int, img.height as int, x, y, w, h);
    &&& out.width == cw
    &&& out.height == ch
    &&& out.color == img.color
    &&& holds_crop(out.bytes, img, x, y, w, h)
}

/// Cuts out a rectangle of an image with the image crate: `DynamicImage::crop_imm` clamps
/// the rectangle into the image (`imageops::crop_dimms`) and copies its pixels row by row
/// into a new buffer (`SubImage::to_image`); `DynamicImage::into_bytes` hands out the new
/// buffer's samples. Claimed, as that source shows: the samples are exactly the pixels of
/// the clamped rectangle, pixel `q` of the cut-out being the pixel of the image that
/// `crop_source` names.
#[verifier::external_body]
fn crop_pixels(color: ColorType, width: u32, height: u32, pixels: &Vec<u8>, x: u32, y: u32, w: u32, h: u32) -> (out: Vec<u8>)
    requires
        fits(width, height, color, pixels@.len() as int),
    ensures
        holds_crop(
            out@,
            (ImageView { width: width as nat, height: height as nat, color, bytes: pixels@ }),
            x as int,
            y as int,
            w as int,
            h as int,
        ),
{
    let px = pixels.clone();
    let img = match color {
        ColorType::L8 => DynamicImage::ImageLuma8(ImageBuffer::from_raw(width, height, px).unwrap()),
        ColorType::La8 => DynamicImage::ImageLumaA8(ImageBuffer::from_raw(width, height, px).unwrap()),
        ColorType::Rgb8 => DynamicImage::ImageRgb8(ImageBuffer::from_raw(width, height, px).unwrap()),
        ColorType::Rgba8 => DynamicImage::ImageRgba8(ImageBuffer::from_raw(width, height, px).unwrap()),
    };
    img.crop_imm(x, y, w, h).into_bytes()
}

/// A cut-out of `img` delimited by the rectangle at (`x`, `y`) of `w` x `h` pixels, clamped
/// to the image as `crop_rect` says.
pub fn crop(img: &Image, x: u32, y: u32, w: u32, h: u32) -> (out: Image)
    ensures
        is_crop_of(out@, img@, x as int, y as int, w as int, h as int),
{
    proof {
        use_type_invariant(img);
    }
    let width = img.width;
    let height = img.height;
    let x0: u32 = if x < width {
        x
    } else {
        width
    };
    let y0: u32 = if y < height {
        y
    } else {
        height
    };
    let cw: u32 = if w < width - x0 {
        w
    } else {
        width - x0
    };
    let ch: u32 = if h < height - y0 {
        h
    } else {
        height - y0
    };
    proof {
        assert(cw * ch <= width * height) by (nonlinear_arith)
            requires
                cw <= width,
                ch <= height,
        ;
    }
    let pixels = crop_pixels(img.color, width, height, &img.pixels, x, y, w, h);
    Image { width: cw, height: ch, color: img.color, pixels }
}

} // verus!
