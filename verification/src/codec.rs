//! The codec adapter: raster bytes in, a pixel buffer out, and back.
//!
//! Decoding, encoding and resampling are the work of the `ril` crate. A
//! `PixelBuffer` holds the decoded image; what the library knows of it is its
//! `Raster`: width, height and the RGB bytes, row by row.

use vstd::prelude::*;
use crate::color::Color;
use crate::text::{opt_view, same_text};

verus! {

/// The formats in which a poster can be uploaded.
#[derive(Debug, Clone, Copy, PartialEq, Eq, Structural)]
pub enum ImageFormat {
    WebP,
    Png,
}

/// The steps of poster processing at which bytes are read or written.
#[derive(Debug, Clone, Copy, PartialEq, Eq, Structural)]
pub enum Stage {
    /// Reading the uploaded file.
    Upload,
    /// Encoding and writing the full-resolution artifact.
    Fullres,
    /// Encoding and writing the thumbnail artifact.
    Thumbnail,
}

/// Why poster processing stopped.
#[derive(Debug, Clone, Copy, PartialEq, Eq, Structural)]
pub enum PipelineError {
    /// The declared content type is neither WebP nor PNG.
    UnsupportedFormat,
    /// The bytes are not an image of the declared format that can be worked
    /// on.
    CorruptImage,
    /// A pixel buffer could not be encoded.
    EncodeFailure,
    /// Reading or writing failed at the given stage.
    IOFailure(Stage),
}

/// The mathematical content of an image: `pixels` holds three bytes (red,
/// green, blue) for each pixel, row by row from the top.
pub struct Raster {
    pub width: nat,
    pub height: nat,
    pub pixels: Seq<u8>,
}

/// An image as the `ril` crate holds it: a `ril::Image<ril::Rgb>`.
///
/// Nothing in it is open to proof: what the library states of it, it states
/// of `raster_of`, which stands for the image's width, its height and its
/// pixels read as red, green and blue, row by row.
#[verifier::external_body]
pub struct ImageData {
    pub(crate) image: ril::Image<ril::Rgb>,
}

#[verifier::external_type_specification]
#[verifier::external_body]
pub struct ExRilError(ril::Error);

/// What an image holds.
pub uninterp spec fn raster_of(image: ImageData) -> Raster;

/// The image that `ril` decodes from `bytes` taken as `format`; `None` where
/// it decodes none.
pub uninterp spec fn decoded_raster(bytes: Seq<u8>, format: ImageFormat) -> Option<Raster>;

/// The WebP file that `ril` writes for an image at the given quality (0 to
/// 100), lossless or lossy; `None` where it writes none.
pub uninterp spec fn webp_encoding(image: Raster, quality: nat, lossless: bool) -> Option<
    Seq<u8>,
>;

/// The image that `ril` makes of `image` when it resamples it to `width` by
/// `height` with the Lanczos filter of window 3.
pub uninterp spec fn resized_raster(image: Raster, width: nat, height: nat) -> Raster;

/// The most pixels of an image that is worked on: the position of a pixel is
/// a 32-bit number.
pub const MAX_PIXELS: u64 = 0xFFFF_FFFF;

/// The greatest width and height of an image that is encoded: a WebP image
/// has no side above this.
pub const MAX_ENCODED_SIDE: u32 = 16383;

/// The place of the width in a PNG file: after the signature and the length
/// and name of the header.
pub const PNG_WIDTH_OFFSET: usize = 16;

/// The place of the height in a PNG file: after the width.
pub const PNG_HEIGHT_OFFSET: usize = 20;

/// The place of the bit depth in a PNG file: after the height.
pub const PNG_DEPTH_OFFSET: usize = 24;

/// The least number of bits per sample of a PNG that is decoded.
pub const PNG_MIN_DEPTH: u8 = 8;

pub const WEBP_CONTENT_TYPE: &'static str = "image/webp";

pub const PNG_CONTENT_TYPE: &'static str = "image/png";

/// The greatest quality that an encoder takes.
pub const MAX_QUALITY: u8 = 100;

/// The colour of the pixel in column `x` and row `y` of an image.
pub open spec fn pixel_at(image: Raster, x: nat, y: nat) -> Color {
    let at = (3 * (y * image.width + x)) as int;
    Color { r: image.pixels[at], g: image.pixels[at + 1], b: image.pixels[at + 2] }
}

/// Whether two images have the same width and height.
pub open spec fn same_size(a: Raster, b: Raster) -> bool {
    a.width == b.width && a.height == b.height
}

/// Whether two images have the same width and height and as many pixels.
pub open spec fn same_shape(a: Raster, b: Raster) -> bool {
    same_size(a, b) && a.pixels.len() == b.pixels.len()
}

/// Whether an image holds a pixel for every place: width times height of
/// them, and at least one.
pub open spec fn is_whole(image: Raster) -> bool {
    &&& image.width >= 1
    &&& image.height >= 1
    &&& image.pixels.len() == 3 * (image.width * image.height)
}

/// Whether an image has no more pixels than can be addressed.
pub open spec fn addressable(image: Raster) -> bool {
    image.width * image.height <= MAX_PIXELS
}

/// Whether an image can be worked on: it is whole and addressable.
pub open spec fn is_sound(image: Raster) -> bool {
    is_whole(image) && addressable(image)
}

/// Whether an image can be resampled to `width` by `height`: neither is
/// zero, and neither the new image nor the one between the two passes of the
/// resampling, which has the new width and the old height, has more pixels
/// than can be addressed.
pub open spec fn resizable(image: Raster, width: u32, height: u32) -> bool {
    &&& width > 0
    &&& height > 0
    &&& width * height <= MAX_PIXELS
    &&& width * image.height <= MAX_PIXELS
}

/// Whether neither side of an image is above the greatest that is encoded.
pub open spec fn fits_webp(image: Raster) -> bool {
    image.width <= MAX_ENCODED_SIDE && image.height <= MAX_ENCODED_SIDE
}

/// The number that four bytes from `at` on denote, most significant first.
pub open spec fn be32(bytes: Seq<u8>, at: int) -> nat {
    (bytes[at] as nat) * 0x100_0000 + (bytes[at + 1] as nat) * 0x1_0000 + (bytes[at + 2] as nat)
        * 0x100 + (bytes[at + 3] as nat)
}

/// Whether the header of a PNG file declares what the decoder does not read:
/// fewer than eight bits per sample, or more pixels than can be addressed.
pub open spec fn is_unfit_png(bytes: Seq<u8>) -> bool {
    bytes.len() > PNG_DEPTH_OFFSET && (bytes[PNG_DEPTH_OFFSET as int] < PNG_MIN_DEPTH || be32(
        bytes,
        PNG_WIDTH_OFFSET as int,
    ) * be32(bytes, PNG_HEIGHT_OFFSET as int) > MAX_PIXELS)
}

/// Whether bytes taken as `format` are handed to the decoder: all but a PNG
/// whose header declares what the decoder does not read.
pub open spec fn is_readable(bytes: Seq<u8>, format: ImageFormat) -> bool {
    format == ImageFormat::Png ==> !is_unfit_png(bytes)
}

/// The image that bytes taken as `format` give: the one that the decoder
/// makes of them, if they are handed to it, it decodes one, and the image can
/// be worked on.
pub open spec fn decoded_image(bytes: Seq<u8>, format: ImageFormat) -> Option<Raster> {
    if is_readable(bytes, format) {
        match decoded_raster(bytes, format) {
            Some(image) => if is_sound(image) {
                Some(image)
            } else {
                None
            },
            None => None,
        }
    } else {
        None
    }
}

/// The quality that an encoder works at when asked for `quality`.
pub open spec fn effective_quality(quality: u8) -> nat {
    if quality <= MAX_QUALITY {
        quality as nat
    } else {
        MAX_QUALITY as nat
    }
}

/// The WebP file of an image at the quality asked for, if the image has no
/// side above `MAX_ENCODED_SIDE` and the encoder writes one.
pub open spec fn encoded(image: Raster, quality: u8, lossless: bool) -> Option<Seq<u8>> {
    if fits_webp(image) {
        webp_encoding(image, effective_quality(quality), lossless)
    } else {
        None
    }
}

/// The format that a content type declares, if it is one that is accepted.
pub open spec fn format_of(content_type: Option<Seq<char>>) -> Option<ImageFormat> {
    match content_type {
        Some(t) => if t == WEBP_CONTENT_TYPE@ {
            Some(ImageFormat::WebP)
        } else if t == PNG_CONTENT_TYPE@ {
            Some(ImageFormat::Png)
        } else {
            None
        },
        None => None,
    }
}

/// The product of two 32-bit numbers fits in 64 bits.
pub proof fn lemma_product_fits(a: u64, b: u64)
    requires
        a <= 0xFFFF_FFFF,
        b <= 0xFFFF_FFFF,
    ensures
        a * b <= 0xFFFF_FFFF * 0xFFFF_FFFF,
        a * b <= u64::MAX,
{
    assert(a * b <= 0xFFFF_FFFF * 0xFFFF_FFFF) by (nonlinear_arith)
        requires
            a <= 0xFFFF_FFFF,
            b <= 0xFFFF_FFFF,
    ;
}

/// Whether `width` times `height` is no more than `limit`.
pub fn area_within(width: u32, height: u32, limit: u64) -> (yes: bool)
    ensures
        yes == (width * height <= limit),
{
    let w: u64 = width as u64;
    let h: u64 = height as u64;
    proof {
        lemma_product_fits(w, h);
    }
    w * h <= limit
}

/// Tells the format of an upload from its declared content type. Only
/// `image/webp` and `image/png` are accepted; anything else, and an upload
/// without a content type, is refused as `UnsupportedFormat`.
pub fn declared_format(content_type: Option<&str>) -> (r: Result<ImageFormat, PipelineError>)
    ensures
        match format_of(opt_view(content_type)) {
            Some(format) => r == Ok::<ImageFormat, PipelineError>(format),
            None => r == Err::<ImageFormat, PipelineError>(PipelineError::UnsupportedFormat),
        },
{
    match content_type {
        Some(t) => {
            if same_text(t, WEBP_CONTENT_TYPE) {
                Ok(ImageFormat::WebP)
            } else if same_text(t, PNG_CONTENT_TYPE) {
                Ok(ImageFormat::Png)
            } else {
                Err(PipelineError::UnsupportedFormat)
            }
        },
        None => Err(PipelineError::UnsupportedFormat),
    }
}

/// `ril::Image::<ril::Rgb>::from_bytes`: decodes `bytes` as an image of the
/// given format, dropping any alpha channel. Whether it decodes an image, and
/// which, is determined by the bytes and the format. Two kinds of PNG are
/// kept from it: one of fewer than eight bits per sample, whose samples it
/// multiplies in eight bits, and one that declares more pixels than can be
/// addressed, for which it would size a buffer beyond that.
#[verifier::external_body]
fn ril_decode(bytes: &Vec<u8>, format: ImageFormat) -> (r: Result<ImageData, ril::Error>)
    requires
        is_readable(bytes@, format),
    ensures
        match r {
            Ok(image) => decoded_raster(bytes@, format) == Some(raster_of(image)),
            Err(_) => decoded_raster(bytes@, format) is None,
        },
{
    let format = match format {
        ImageFormat::WebP => ril::ImageFormat::WebP,
        ImageFormat::Png => ril::ImageFormat::Png,
    };
    Ok(ImageData { image: ril::Image::from_bytes(format, bytes)? })
}

/// The length of `ril::Image::data`: the number of pixels that the image
/// holds, each of three bytes.
#[verifier::external_body]
fn ril_pixel_count(image: &ImageData) -> (count: usize)
    ensures
        3 * count == raster_of(*image).pixels.len(),
{
    image.image.data.len()
}

/// `ril::Image::dimensions`: the width and height of the image, neither of
/// which is zero.
#[verifier::external_body]
fn ril_dimensions(image: &ImageData) -> (d: (u32, u32))
    ensures
        d.0 == raster_of(*image).width,
        d.1 == raster_of(*image).height,
        d.0 > 0,
        d.1 > 0,
{
    image.image.dimensions()
}

/// `ril::encodings::webp::WebPEncoder::encode`, with the encoder's quality and
/// lossless switch set as given: writes the image as a WebP file. Whether it
/// writes a file, and which, is determined by the image and the two
/// settings; the file is a WebP image of the same width and height. The
/// encoder reads a pixel for every place of the image and works out the
/// length of a row in 32 bits; no side is above what a WebP image can have.
#[verifier::external_body]
fn ril_encode_webp(image: &ImageData, quality: u8, lossless: bool) -> (r: Result<
    Vec<u8>,
    ril::Error,
>)
    requires
        fits_webp(raster_of(*image)),
        is_sound(raster_of(*image)),
    ensures
        match r {
            Ok(bytes) => webp_encoding(raster_of(*image), quality as nat, lossless) == Some(
                bytes@,
            ),
            Err(_) => webp_encoding(raster_of(*image), quality as nat, lossless) is None,
        },
        r matches Ok(bytes) ==> decodes_to_size(bytes@, raster_of(*image)),
{
    let mut encoder = ril::encodings::webp::WebPEncoder::new().with_quality(
        quality.into(),
    ).with_lossless(lossless);
    let mut bytes = Vec::new();
    ril::Encoder::encode(&mut encoder, &image.image, &mut bytes)?;
    Ok(bytes)
}

/// `ril::Image::resize` with `ResizeAlgorithm::Lanczos3`: resamples the image
/// in place to exactly `width` by `height`, whatever its aspect ratio was.
/// It refuses a zero and reads a pixel for every place of the image. It
/// counts in 32 bits the pixels of the image, of the new image, and of the
/// image between its two passes, which has the new width and the old height.
#[verifier::external_body]
fn ril_resize(image: &mut ImageData, width: u32, height: u32)
    requires
        resizable(raster_of(*old(image)), width, height),
        is_sound(raster_of(*old(image))),
    ensures
        raster_of(*final(image)) == resized_raster(
            raster_of(*old(image)),
            width as nat,
            height as nat,
        ),
        raster_of(*final(image)).width == width,
        raster_of(*final(image)).height == height,
        is_whole(raster_of(*final(image))),
{
    image.image.resize(width, height, ril::ResizeAlgorithm::Lanczos3)
}

/// `ril::Image::pixel`: the pixel at `(x, y)`, which lies within the image.
/// The position of a pixel is worked out in 32 bits.
#[verifier::external_body]
fn ril_pixel(image: &ImageData, x: u32, y: u32) -> (c: Color)
    requires
        x < raster_of(*image).width,
        y < raster_of(*image).height,
        is_sound(raster_of(*image)),
    ensures
        c == pixel_at(raster_of(*image), x as nat, y as nat),
{
    let pixel = image.image.pixel(x, y);
    Color { r: pixel.r, g: pixel.g, b: pixel.b }
}

/// Whether a WebP file decodes to an image of the width and height of
/// `image`.
pub open spec fn decodes_to_size(bytes: Seq<u8>, image: Raster) -> bool {
    decoded_raster(bytes, ImageFormat::WebP) matches Some(back) && same_size(back, image)
}

/// An image in memory that can be worked on: it holds a pixel for every
/// place and has no more pixels than can be addressed.
pub struct PixelBuffer {
    inner: ImageData,
}

impl View for PixelBuffer {
    type V = Raster;

    closed spec fn view(&self) -> Raster {
        raster_of(self.inner)
    }
}

/// Reads four bytes from `at` on as a number, most significant first.
fn read_be32(bytes: &Vec<u8>, at: usize) -> (n: u32)
    requires
        at + 4 <= bytes.len(),
    ensures
        n == be32(bytes@, at as int),
{
    let a: u32 = bytes[at] as u32;
    let b: u32 = bytes[at + 1] as u32;
    let c: u32 = bytes[at + 2] as u32;
    let d: u32 = bytes[at + 3] as u32;
    a * 0x100_0000 + b * 0x1_0000 + c * 0x100 + d
}

/// Whether the header of a PNG file declares what the decoder does not read.
fn has_unfit_header(bytes: &Vec<u8>) -> (yes: bool)
    ensures
        yes == is_unfit_png(bytes@),
{
    if bytes.len() <= PNG_DEPTH_OFFSET {
        return false;
    }
    if bytes[PNG_DEPTH_OFFSET] < PNG_MIN_DEPTH {
        return true;
    }
    let width = read_be32(bytes, PNG_WIDTH_OFFSET);
    let height = read_be32(bytes, PNG_HEIGHT_OFFSET);
    !area_within(width, height, MAX_PIXELS)
}

/// Whether an image from outside can be worked on.
fn check_sound(image: &ImageData) -> (yes: bool)
    ensures
        yes == is_sound(raster_of(*image)),
{
    let d = ril_dimensions(image);
    let count = ril_pixel_count(image);
    if !area_within(d.0, d.1, MAX_PIXELS) {
        return false;
    }
    let area: u64 = {
        proof {
            lemma_product_fits(d.0 as u64, d.1 as u64);
        }
        (d.0 as u64) * (d.1 as u64)
    };
    count as u64 == area
}

/// Decodes bytes of a known format.
///
/// The result is the image that the decoder makes of the bytes. Bytes of
/// which it makes none are a `CorruptImage`; so are a PNG of fewer than
/// eight bits per sample, an image that does not hold a pixel for every
/// place, and one of more pixels than can be addressed.
pub fn decode_as(bytes: &Vec<u8>, format: ImageFormat) -> (r: Result<PixelBuffer, PipelineError>)
    ensures
        match decoded_image(bytes@, format) {
            Some(image) => r matches Ok(buffer) && buffer@ == image,
            None => r matches Err(e) && e == PipelineError::CorruptImage,
        },
{
    match format {
        ImageFormat::Png => {
            if has_unfit_header(bytes) {
                return Err(PipelineError::CorruptImage);
            }
        },
        ImageFormat::WebP => {},
    }
    match ril_decode(bytes, format) {
        Ok(inner) => {
            if check_sound(&inner) {
                Ok(PixelBuffer { inner })
            } else {
                Err(PipelineError::CorruptImage)
            }
        },
        Err(_) => Err(PipelineError::CorruptImage),
    }
}

/// What decoding an upload of a declared content type gives.
pub open spec fn decode_outcome(bytes: Seq<u8>, content_type: Option<Seq<char>>) -> Result<
    Raster,
    PipelineError,
> {
    match format_of(content_type) {
        None => Err(PipelineError::UnsupportedFormat),
        Some(format) => match decoded_image(bytes, format) {
            Some(image) => Ok(image),
            None => Err(PipelineError::CorruptImage),
        },
    }
}

/// Decodes an upload of the declared content type.
///
/// A content type other than WebP or PNG is refused before the bytes are
/// looked at. Bytes that give no image are a `CorruptImage`.
pub fn decode(bytes: &Vec<u8>, content_type: Option<&str>) -> (r: Result<
    PixelBuffer,
    PipelineError,
>)
    ensures
        match decode_outcome(bytes@, opt_view(content_type)) {
            Ok(image) => r matches Ok(buffer) && buffer@ == image,
            Err(e) => r matches Err(x) && x == e,
        },
{
    match declared_format(content_type) {
        Ok(format) => decode_as(bytes, format),
        Err(e) => Err(e),
    }
}

/// Encodes a pixel buffer as WebP, lossless or at a lossy quality from 0 to
/// 100. A quality above 100 is taken as 100. The file is the one that the
/// encoder writes, and it decodes to an image of the buffer's width and
/// height. An image with a side above `MAX_ENCODED_SIDE`, and one of which
/// the encoder writes no file, is an `EncodeFailure`.
pub fn encode(buffer: &PixelBuffer, quality: u8, lossless: bool) -> (r: Result<
    Vec<u8>,
    PipelineError,
>)
    ensures
        match encoded(buffer@, quality, lossless) {
            Some(file) => r matches Ok(bytes) && bytes@ == file && decodes_to_size(file, buffer@),
            None => r matches Err(e) && e == PipelineError::EncodeFailure,
        },
{
    proof {
        use_type_invariant(buffer);
    }
    let d = ril_dimensions(&buffer.inner);
    if d.0 > MAX_ENCODED_SIDE || d.1 > MAX_ENCODED_SIDE {
        return Err(PipelineError::EncodeFailure);
    }
    let quality = if quality <= MAX_QUALITY {
        quality
    } else {
        MAX_QUALITY
    };
    match ril_encode_webp(&buffer.inner, quality, lossless) {
        Ok(bytes) => Ok(bytes),
        Err(_) => Err(PipelineError::EncodeFailure),
    }
}

impl PixelBuffer {
    #[verifier::type_invariant]
    spec fn sound(&self) -> bool {
        is_sound(raster_of(self.inner))
    }

    /// The image that the buffer holds.
    pub(crate) fn image(&self) -> (image: &ImageData)
        ensures
            raster_of(*image) == self@,
            is_sound(self@),
    {
        proof {
            use_type_invariant(self);
        }
        &self.inner
    }

    /// Gives up the image that the buffer holds.
    pub(crate) fn into_image(self) -> (image: ImageData)
        ensures
            raster_of(image) == self@,
            is_sound(self@),
    {
        proof {
            use_type_invariant(&self);
        }
        self.inner
    }

    /// Takes up an image that can be worked on.
    pub(crate) fn from_image(image: ImageData) -> (buffer: PixelBuffer)
        requires
            is_sound(raster_of(image)),
        ensures
            buffer@ == raster_of(image),
    {
        PixelBuffer { inner: image }
    }

    /// The width of the image in pixels.
    pub fn width(&self) -> (w: u32)
        ensures
            w == self@.width,
            w > 0,
            is_sound(self@),
    {
        proof {
            use_type_invariant(self);
        }
        ril_dimensions(&self.inner).0
    }

    /// The height of the image in pixels.
    pub fn height(&self) -> (h: u32)
        ensures
            h == self@.height,
            h > 0,
            is_sound(self@),
    {
        proof {
            use_type_invariant(self);
        }
        ril_dimensions(&self.inner).1
    }

    /// The colour of the pixel in column `x` and row `y`, where the image
    /// has such a pixel.
    pub fn pixel(&self, x: u32, y: u32) -> (c: Option<Color>)
        ensures
            c is Some <==> x < self@.width && y < self@.height,
            c matches Some(colour) ==> colour == pixel_at(self@, x as nat, y as nat),
    {
        proof {
            use_type_invariant(self);
        }
        let d = ril_dimensions(&self.inner);
        if x < d.0 && y < d.1 {
            Some(ril_pixel(&self.inner, x, y))
        } else {
            None
        }
    }

    /// Resamples the image to exactly `width` by `height`. The aspect ratio
    /// is not kept. Where either is zero, or the new image or the one of the
    /// new width and the old height would have more than `MAX_PIXELS`
    /// pixels, the image is handed back as it is.
    pub fn resize(self, width: u32, height: u32) -> (resized: PixelBuffer)
        ensures
            resizable(self@, width, height) ==> {
                &&& resized@ == resized_raster(self@, width as nat, height as nat)
                &&& resized@.width == width
                &&& resized@.height == height
            },
            !resizable(self@, width, height) ==> resized@ == self@,
    {
        proof {
            use_type_invariant(&self);
        }
        if width == 0 || height == 0 || !area_within(width, height, MAX_PIXELS) {
            return self;
        }
        let rows = ril_dimensions(&self.inner).1;
        if !area_within(width, rows, MAX_PIXELS) {
            return self;
        }
        let mut inner = self.inner;
        ril_resize(&mut inner, width, height);
        PixelBuffer { inner }
    }
}

} // verus!
