//! The source image, decoded and scaled to the box that the canvas is laid
//! out for. The `image` crate does the pixel work; what it hands back is
//! measured here before it is passed on.

use crate::catalog::has_tif_extension;
use crate::catalog::is_tif;
use image::DynamicImage;
use image::ImageError;
use image::ImageFormat;
use image::ImageReader;
use std::io::Cursor;
use vstd::prelude::*;

verus! {

/// Side of the square that the scaled photo fits in, in pixels.
pub const PHOTO_BOX_SIZE: u32 = 900;

/// Name of the temporary file that holds the scaled photo.
pub const RASTER_FILE_NAME: &'static str = "tmp.png";

#[verifier::external_type_specification]
#[verifier::external_body]
pub struct ExDynamicImage(image::DynamicImage);

#[verifier::external_type_specification]
#[verifier::external_body]
pub struct ExImageError(image::ImageError);

/// The file format of a source image.
#[derive(Clone, Copy, Debug, PartialEq, Eq, Structural)]
pub enum SourceFormat {
    /// The high-resolution format.
    Tiff,
    /// The format of the fallback photo.
    Jpeg,
}

impl SourceFormat {
    /// The format of a source image, by its file name: the high-resolution
    /// format for a name that ends in `.tif`, the fallback photo's for any
    /// other.
    pub fn of_file(file_name: &str) -> (format: SourceFormat)
        ensures
            format == if has_tif_extension(file_name@) {
                SourceFormat::Tiff
            } else {
                SourceFormat::Jpeg
            },
    {
        if is_tif(file_name, true) {
            SourceFormat::Tiff
        } else {
            SourceFormat::Jpeg
        }
    }
}

/// Why a source image could not be normalized.
#[derive(Clone, Debug, PartialEq, Eq)]
pub enum NormalizeError {
    /// The source is not an image of its format. Holds the decoder's words.
    Decode(String),
    /// The scaled image has neither the source's shape in the photo box nor
    /// the source's own size.
    Resize,
    /// The scaled image could not be written as PNG. Holds the encoder's words.
    Encode(String),
}

/// A scaled photo as PNG, with its size and the size of the image it was made from.
#[derive(Clone, Debug, PartialEq, Eq)]
pub struct Thumbnail {
    pub png: Vec<u8>,
    pub width: u32,
    pub height: u32,
    pub source_width: u32,
    pub source_height: u32,
}

/// A scaled photo in its temporary file.
#[derive(Clone, Debug, PartialEq, Eq)]
pub struct NormalizedImage {
    pub raster_path: String,
    pub width: u32,
    pub height: u32,
}

/// A thumbnail as plain values.
pub struct ThumbnailContent {
    pub png: Seq<u8>,
    pub width: int,
    pub height: int,
    pub source_width: int,
    pub source_height: int,
}

/// A scaled photo in its temporary file, as plain values.
pub struct NormalizedImageContent {
    pub raster_path: Seq<char>,
    pub width: int,
    pub height: int,
}

/// Why a source image could not be normalized, as plain values.
pub enum NormalizeFailure {
    Decode(Seq<char>),
    Resize,
    Encode(Seq<char>),
}

impl View for Thumbnail {
    type V = ThumbnailContent;

    open spec fn view(&self) -> ThumbnailContent {
        ThumbnailContent {
            png: self.png@,
            width: self.width as int,
            height: self.height as int,
            source_width: self.source_width as int,
            source_height: self.source_height as int,
        }
    }
}

impl View for NormalizedImage {
    type V = NormalizedImageContent;

    open spec fn view(&self) -> NormalizedImageContent {
        NormalizedImageContent {
            raster_path: self.raster_path@,
            width: self.width as int,
            height: self.height as int,
        }
    }
}

impl View for NormalizeError {
    type V = NormalizeFailure;

    open spec fn view(&self) -> NormalizeFailure {
        match self {
            NormalizeError::Decode(text) => NormalizeFailure::Decode(text@),
            NormalizeError::Resize => NormalizeFailure::Resize,
            NormalizeError::Encode(text) => NormalizeFailure::Encode(text@),
        }
    }
}

pub open spec fn longer_side(width: int, height: int) -> int {
    if width >= height {
        width
    } else {
        height
    }
}

/// Whether `width` by `height` is `source_width` by `source_height` scaled so
/// that its longer side is `box_size`, each side less than one pixel off the
/// exact quotient and at least one pixel long.
pub open spec fn scaled_to_box(
    source_width: int,
    source_height: int,
    width: int,
    height: int,
    box_size: int,
) -> bool {
    let longer = longer_side(source_width, source_height);
    &&& source_width >= 1
    &&& source_height >= 1
    &&& width >= 1
    &&& height >= 1
    &&& -longer < width * longer - source_width * box_size < longer
    &&& -longer < height * longer - source_height * box_size < longer
}

/// Whether `width` by `height` is the size of a source that fits the box
/// already and was left as it is.
pub open spec fn left_as_it_is(
    source_width: int,
    source_height: int,
    width: int,
    height: int,
    box_size: int,
) -> bool {
    &&& 1 <= source_width <= box_size
    &&& 1 <= source_height <= box_size
    &&& width == source_width
    &&& height == source_height
}

/// Whether `width` by `height` is a size that a source of `source_width` by
/// `source_height` may be normalized to: the source's size scaled to the box,
/// or the source's own size where that fits the box.
pub open spec fn normalized_size(
    source_width: int,
    source_height: int,
    width: int,
    height: int,
    box_size: int,
) -> bool {
    scaled_to_box(source_width, source_height, width, height, box_size) || left_as_it_is(
        source_width,
        source_height,
        width,
        height,
        box_size,
    )
}

impl Thumbnail {
    /// The size is one that the source may be normalized to for the photo box.
    pub open spec fn wf(&self) -> bool {
        normalized_size(
            self.source_width as int,
            self.source_height as int,
            self.width as int,
            self.height as int,
            PHOTO_BOX_SIZE as int,
        )
    }
}

impl NormalizedImage {
    /// Neither side is empty or longer than the photo box.
    pub open spec fn wf(&self) -> bool {
        &&& 1 <= self.width <= PHOTO_BOX_SIZE
        &&& 1 <= self.height <= PHOTO_BOX_SIZE
    }

    /// Names a scaled photo of the given size, where that size fits the
    /// photo box.
    pub fn new(raster_path: String, width: u32, height: u32) -> (image: Option<NormalizedImage>)
        ensures
            image is Some == (1 <= width <= PHOTO_BOX_SIZE && 1 <= height <= PHOTO_BOX_SIZE),
            image matches Some(n) ==> n.wf() && n.raster_path == raster_path && n.width == width
                && n.height == height,
    {
        if 1 <= width && width <= PHOTO_BOX_SIZE && 1 <= height && height <= PHOTO_BOX_SIZE {
            Some(NormalizedImage { raster_path, width, height })
        } else {
            None
        }
    }
}

/// Scaling keeps the shape: the longer side of the scaled image is exactly
/// the box, the shorter side is inside it, and the two aspect ratios, cross
/// multiplied, differ by less than the sum of the source's sides.
pub proof fn lemma_scaled_keeps_aspect(
    source_width: int,
    source_height: int,
    width: int,
    height: int,
    box_size: int,
)
    requires
        scaled_to_box(source_width, source_height, width, height, box_size),
    ensures
        longer_side(width, height) == box_size,
        source_width >= source_height ==> width == box_size,
        source_height >= source_width ==> height == box_size,
        1 <= width <= box_size,
        1 <= height <= box_size,
        -(source_width + source_height) < width * source_height - height * source_width < (
        source_width + source_height),
{
    let m = longer_side(source_width, source_height);
    let dw = width * m - source_width * box_size;
    let dh = height * m - source_height * box_size;
    assert(box_size >= 1 && width <= box_size && height <= box_size && (source_width >= source_height
        ==> width == box_size) && (source_height >= source_width ==> height == box_size))
        by (nonlinear_arith)
        requires
            m >= 1,
            m == source_width || m == source_height,
            1 <= source_width <= m,
            1 <= source_height <= m,
            width >= 1,
            height >= 1,
            -m < width * m - source_width * box_size < m,
            -m < height * m - source_height * box_size < m,
    ;
    assert(-(source_width + source_height) < width * source_height - height * source_width < (
    source_width + source_height)) by (nonlinear_arith)
        requires
            m >= 1,
            1 <= source_width <= m,
            1 <= source_height <= m,
            dw == width * m - source_width * box_size,
            dh == height * m - source_height * box_size,
            -m < dw < m,
            -m < dh < m,
    {
        assert((width * source_height - height * source_width) * m == dw * source_height - dh
            * source_width);
        assert(-m * source_height < dw * source_height < m * source_height);
        assert(-m * source_width < dh * source_width < m * source_width);
        assert(-(source_width + source_height) * m < (width * source_height - height
            * source_width) * m < (source_width + source_height) * m);
    }
}

/// Normalizing keeps the shape and fills the box: the normalized image lies
/// inside the box; its longer side is exactly the box, unless the source
/// fitted the box and was left as it is; and the two aspect ratios, cross
/// multiplied, differ by less than the sum of the source's sides.
pub proof fn lemma_normalized_keeps_aspect(
    source_width: int,
    source_height: int,
    width: int,
    height: int,
    box_size: int,
)
    requires
        normalized_size(source_width, source_height, width, height, box_size),
    ensures
        1 <= width <= box_size,
        1 <= height <= box_size,
        longer_side(width, height) == box_size || (width == source_width && height
            == source_height),
        -(source_width + source_height) < width * source_height - height * source_width < (
        source_width + source_height),
{
    if scaled_to_box(source_width, source_height, width, height, box_size) {
        lemma_scaled_keeps_aspect(source_width, source_height, width, height, box_size);
    } else {
        assert(width * source_height - height * source_width == 0) by (nonlinear_arith)
            requires
                width == source_width,
                height == source_height,
        ;
    }
}

/// Tells whether a scaled size is the source's size scaled to `box_size`.
pub fn is_scaled_to_box(
    source_width: u32,
    source_height: u32,
    width: u32,
    height: u32,
    box_size: u32,
) -> (ok: bool)
    ensures
        ok == scaled_to_box(
            source_width as int,
            source_height as int,
            width as int,
            height as int,
            box_size as int,
        ),
{
    if source_width == 0 || source_height == 0 || width == 0 || height == 0 {
        return false;
    }
    let longer: u128 = if source_width >= source_height {
        source_width as u128
    } else {
        source_height as u128
    };
    proof {
        assert(width * longer <= 0xffff_ffff * 0xffff_ffff) by (nonlinear_arith)
            requires
                0 <= width <= 0xffff_ffff,
                0 <= longer <= 0xffff_ffff,
        ;
        assert(height * longer <= 0xffff_ffff * 0xffff_ffff) by (nonlinear_arith)
            requires
                0 <= height <= 0xffff_ffff,
                0 <= longer <= 0xffff_ffff,
        ;
        assert(source_width * box_size <= 0xffff_ffff * 0xffff_ffff) by (nonlinear_arith)
            requires
                0 <= source_width <= 0xffff_ffff,
                0 <= box_size <= 0xffff_ffff,
        ;
        assert(source_height * box_size <= 0xffff_ffff * 0xffff_ffff) by (nonlinear_arith)
            requires
                0 <= source_height <= 0xffff_ffff,
                0 <= box_size <= 0xffff_ffff,
        ;
    }
    let got_w: u128 = (width as u128) * longer;
    let want_w: u128 = (source_width as u128) * (box_size as u128);
    let got_h: u128 = (height as u128) * longer;
    let want_h: u128 = (source_height as u128) * (box_size as u128);
    got_w < want_w + longer && want_w < got_w + longer && got_h < want_h + longer && want_h < got_h
        + longer
}

/// Tells whether a size is one that the source may be normalized to.
pub fn is_normalized_size(
    source_width: u32,
    source_height: u32,
    width: u32,
    height: u32,
    box_size: u32,
) -> (ok: bool)
    ensures
        ok == normalized_size(
            source_width as int,
            source_height as int,
            width as int,
            height as int,
            box_size as int,
        ),
{
    let left = 1 <= source_width && source_width <= box_size && 1 <= source_height
        && source_height <= box_size && width == source_width && height == source_height;
    left || is_scaled_to_box(source_width, source_height, width, height, box_size)
}

/// What the `image` crate decodes `source` to as an image of `format`, with
/// no limit on the image's size: the image, or its error.
pub uninterp spec fn decoded_image(source: Seq<u8>, format: SourceFormat) -> Result<
    image::DynamicImage,
    image::ImageError,
>;

/// The width and the height of an image, in pixels.
pub uninterp spec fn image_size(img: image::DynamicImage) -> (int, int);

/// The image that `DynamicImage::thumbnail` scales an image to for the sides
/// asked for.
pub uninterp spec fn scaled_image(img: image::DynamicImage, nwidth: int, nheight: int)
    -> image::DynamicImage;

/// An image with its pixels turned into 8-bit RGB.
pub uninterp spec fn rgb8_image(img: image::DynamicImage) -> image::DynamicImage;

/// What the `image` crate writes an image as in the PNG format: the bytes, or
/// its error.
pub uninterp spec fn png_bytes(img: image::DynamicImage) -> Result<Seq<u8>, image::ImageError>;

/// The `Debug` text of an error of the `image` crate.
pub uninterp spec fn error_words(err: image::ImageError) -> Seq<char>;

/// Whether the `image` crate decodes `source` as an image of `format`.
pub open spec fn image_decodes(source: Seq<u8>, format: SourceFormat) -> bool {
    decoded_image(source, format) is Ok
}

/// `ImageReader::decode`, on a reader over the bytes of `source` that was
/// made by `ImageReader::with_format` for `format` and had its limits taken
/// off by `no_limits`. The decoders of the two formats read nothing but the
/// bytes, so what comes back goes by the bytes and the format alone.
#[verifier::external_body]
fn decode_image(source: &[u8], format: SourceFormat) -> (decoded: Result<DynamicImage, ImageError>)
    ensures
        decoded == decoded_image(source@, format),
{
    let format = match format {
        SourceFormat::Tiff => ImageFormat::Tiff,
        SourceFormat::Jpeg => ImageFormat::Jpeg,
    };
    let mut reader = ImageReader::with_format(Cursor::new(source), format);
    reader.no_limits();
    reader.decode()
}

/// `DynamicImage::width` gives the image's width.
pub assume_specification[ image::DynamicImage::width ](img: &DynamicImage) -> (width: u32)
    ensures
        width == image_size(*img).0,
;

/// `DynamicImage::height` gives the image's height.
pub assume_specification[ image::DynamicImage::height ](img: &DynamicImage) -> (height: u32)
    ensures
        height == image_size(*img).1,
;

/// `DynamicImage::thumbnail`. What it returns goes by the image and the sides
/// asked for alone. It allocates an image that fits in those sides; they are
/// held down so that the size of that allocation cannot overflow.
pub assume_specification[ image::DynamicImage::thumbnail ](
    img: &DynamicImage,
    nwidth: u32,
    nheight: u32,
) -> (scaled: DynamicImage)
    requires
        nwidth <= 16384,
        nheight <= 16384,
    ensures
        scaled == scaled_image(*img, nwidth as int, nheight as int),
;

/// `DynamicImage::to_rgb8`, its result put back into a `DynamicImage` as the
/// variant for 8-bit RGB. What it returns goes by the image alone.
#[verifier::external_body]
fn to_rgb8(img: &DynamicImage) -> (rgb: DynamicImage)
    ensures
        rgb == rgb8_image(*img),
{
    DynamicImage::ImageRgb8(img.to_rgb8())
}

/// `DynamicImage::write_to` with the PNG format, into memory. What is
/// written, or the error, goes by the image alone.
#[verifier::external_body]
fn encode_png(img: &DynamicImage) -> (encoded: Result<Vec<u8>, ImageError>)
    ensures
        encoded matches Ok(bytes) ==> (png_bytes(*img) matches Ok(named) && named == bytes@),
        encoded matches Err(err) ==> (png_bytes(*img) matches Err(named) && named == err),
{
    let mut out = Cursor::new(Vec::new());
    img.write_to(&mut out, ImageFormat::Png)?;
    Ok(out.into_inner())
}

/// The `Debug` text of an `ImageError`.
#[verifier::external_body]
fn error_text(err: &ImageError) -> (text: String)
    ensures
        text@ == error_words(*err),
{
    format!("{:?}", err)
}

/// The image that a decoded image is scaled to for the photo box: scaled as
/// a thumbnail, then turned into 8-bit RGB.
pub open spec fn box_image(img: image::DynamicImage) -> image::DynamicImage {
    rgb8_image(scaled_image(img, PHOTO_BOX_SIZE as int, PHOTO_BOX_SIZE as int))
}

/// The thumbnail of a decoded image. The encoder's error is handed on in its
/// own words; a scaled image of a size that the source may not be normalized
/// to is refused; else the thumbnail holds the PNG bytes of the scaled image,
/// its size and the size of the decoded image.
pub open spec fn thumbnail_of(img: image::DynamicImage) -> Result<
    ThumbnailContent,
    NormalizeFailure,
> {
    let scaled = box_image(img);
    match png_bytes(scaled) {
        Ok(png) => if normalized_size(
            image_size(img).0,
            image_size(img).1,
            image_size(scaled).0,
            image_size(scaled).1,
            PHOTO_BOX_SIZE as int,
        ) {
            Ok(
                ThumbnailContent {
                    png,
                    width: image_size(scaled).0,
                    height: image_size(scaled).1,
                    source_width: image_size(img).0,
                    source_height: image_size(img).1,
                },
            )
        } else {
            Err(NormalizeFailure::Resize)
        },
        Err(err) => Err(NormalizeFailure::Encode(error_words(err))),
    }
}

/// The thumbnail of a source image: the decoder's error in its own words
/// where the bytes do not decode, else the thumbnail of the decoded image.
pub open spec fn small_png(source: Seq<u8>, format: SourceFormat) -> Result<
    ThumbnailContent,
    NormalizeFailure,
> {
    match decoded_image(source, format) {
        Ok(img) => thumbnail_of(img),
        Err(err) => Err(NormalizeFailure::Decode(error_words(err))),
    }
}

/// The scaled photo of a source image for the temporary file `raster_path`:
/// the thumbnail's size under that path, with the thumbnail's PNG bytes; an
/// error of the thumbnail is handed on as it is.
pub open spec fn stored_png(source: Seq<u8>, format: SourceFormat, raster_path: Seq<char>)
    -> Result<(NormalizedImageContent, Seq<u8>), NormalizeFailure> {
    match small_png(source, format) {
        Ok(t) => Ok(
            (NormalizedImageContent { raster_path, width: t.width, height: t.height }, t.png),
        ),
        Err(failure) => Err(failure),
    }
}

/// A thumbnail or an error, as plain values.
pub open spec fn thumbnail_outcome(made: Result<Thumbnail, NormalizeError>) -> Result<
    ThumbnailContent,
    NormalizeFailure,
> {
    match made {
        Ok(t) => Ok(t@),
        Err(e) => Err(e@),
    }
}

/// A scaled photo with its bytes, or an error, as plain values.
pub open spec fn stored_outcome(made: Result<(NormalizedImage, Vec<u8>), NormalizeError>)
    -> Result<(NormalizedImageContent, Seq<u8>), NormalizeFailure> {
    match made {
        Ok(stored) => Ok((stored.0@, stored.1@)),
        Err(e) => Err(e@),
    }
}

/// A thumbnail that comes of a source image lies inside the photo box and
/// keeps the shape of the decoded image, whose size it records. Its longer
/// side is exactly the box where the decoded image is larger than the box;
/// of a wide image the width is then the box and the height less than a
/// pixel off the exact quotient, and the other way round of a tall one.
pub proof fn lemma_small_png_keeps_aspect(source: Seq<u8>, format: SourceFormat)
    requires
        small_png(source, format) is Ok,
    ensures
        ({
            let t = small_png(source, format)->Ok_0;
            let b = PHOTO_BOX_SIZE as int;
            &&& decoded_image(source, format) matches Ok(img) && image_size(img) == (
                t.source_width,
                t.source_height,
            )
            &&& 1 <= t.width <= b
            &&& 1 <= t.height <= b
            &&& longer_side(t.source_width, t.source_height) > b ==> longer_side(t.width, t.height)
                == b
            &&& t.source_width >= t.source_height && t.source_width > b ==> t.width == b && -t.source_width
                < t.height * t.source_width - b * t.source_height < t.source_width
            &&& t.source_height >= t.source_width && t.source_height > b ==> t.height == b
                && -t.source_height < t.width * t.source_height - b * t.source_width
                < t.source_height
            &&& -(t.source_width + t.source_height) < t.width * t.source_height - t.height
                * t.source_width < (t.source_width + t.source_height)
        }),
{
    let t = small_png(source, format)->Ok_0;
    let b = PHOTO_BOX_SIZE as int;
    lemma_normalized_keeps_aspect(t.source_width, t.source_height, t.width, t.height, b);
    if longer_side(t.source_width, t.source_height) > b {
        lemma_scaled_keeps_aspect(t.source_width, t.source_height, t.width, t.height, b);
    }
}

impl Thumbnail {
    /// Takes what the scaling came to: the PNG and the two sizes. The
    /// thumbnail is made where the scaled size is one that the source may be
    /// normalized to for the photo box, and refused where it is not.
    pub fn measured(
        png: Vec<u8>,
        source_width: u32,
        source_height: u32,
        width: u32,
        height: u32,
    ) -> (made: Result<Thumbnail, NormalizeError>)
        ensures
            made is Ok == normalized_size(
                source_width as int,
                source_height as int,
                width as int,
                height as int,
                PHOTO_BOX_SIZE as int,
            ),
            made matches Ok(t) ==> t.png == png && t.width == width && t.height == height
                && t.source_width == source_width && t.source_height == source_height,
            made matches Err(e) ==> e == NormalizeError::Resize,
    {
        if is_normalized_size(source_width, source_height, width, height, PHOTO_BOX_SIZE) {
            Ok(Thumbnail { png, width, height, source_width, source_height })
        } else {
            Err(NormalizeError::Resize)
        }
    }

    /// Takes what the encoding of a scaled image came to, with the two
    /// sizes: the bytes make a thumbnail as `measured` says, and the
    /// encoder's words make an error.
    pub fn encoded(
        encoded: Result<Vec<u8>, String>,
        source_width: u32,
        source_height: u32,
        width: u32,
        height: u32,
    ) -> (made: Result<Thumbnail, NormalizeError>)
        ensures
            made == match encoded {
                Ok(png) => if normalized_size(
                    source_width as int,
                    source_height as int,
                    width as int,
                    height as int,
                    PHOTO_BOX_SIZE as int,
                ) {
                    Ok(Thumbnail { png, width, height, source_width, source_height })
                } else {
                    Err(NormalizeError::Resize)
                },
                Err(text) => Err(NormalizeError::Encode(text)),
            },
    {
        match encoded {
            Ok(png) => Thumbnail::measured(png, source_width, source_height, width, height),
            Err(text) => Err(NormalizeError::Encode(text)),
        }
    }

    /// Names the temporary file that the PNG is to be kept in.
    pub fn stored_at(self, raster_path: String) -> (stored: (NormalizedImage, Vec<u8>))
        requires
            self.wf(),
        ensures
            stored.0.wf(),
            stored.0.raster_path == raster_path,
            stored.0.width == self.width,
            stored.0.height == self.height,
            stored.1 == self.png,
    {
        proof {
            lemma_normalized_keeps_aspect(
                self.source_width as int,
                self.source_height as int,
                self.width as int,
                self.height as int,
                PHOTO_BOX_SIZE as int,
            );
        }
        (NormalizedImage { raster_path, width: self.width, height: self.height }, self.png)
    }
}

/// Scales a decoded image to the photo box and writes the result as 8-bit
/// RGB PNG: the thumbnail of the image, as `thumbnail_of` says.
pub fn scale_decoded(decoded: &DynamicImage) -> (made: Result<Thumbnail, NormalizeError>)
    ensures
        thumbnail_outcome(made) == thumbnail_of(*decoded),
        made matches Ok(t) ==> t.wf(),
{
    let source_width = decoded.width();
    let source_height = decoded.height();
    let rgb = to_rgb8(&decoded.thumbnail(PHOTO_BOX_SIZE, PHOTO_BOX_SIZE));
    let width = rgb.width();
    let height = rgb.height();
    let encoded = match encode_png(&rgb) {
        Ok(png) => Ok(png),
        Err(err) => Err(error_text(&err)),
    };
    Thumbnail::encoded(encoded, source_width, source_height, width, height)
}

/// Decodes a source image, scales it to the photo box and writes the result
/// as 8-bit RGB PNG: the thumbnail of the source, as `small_png` says.
///
/// What the bytes decode to, what the scaled image holds and what it is
/// written as is for the `image` crate to say. A thumbnail comes back where
/// the bytes decode, the scaled image has a size that the source may be
/// normalized to, and it can be written: see `lemma_small_png_keeps_aspect`.
pub fn to_small_png(source: &[u8], format: SourceFormat) -> (made: Result<
    Thumbnail,
    NormalizeError,
>)
    ensures
        thumbnail_outcome(made) == small_png(source@, format),
        made matches Ok(t) ==> t.wf(),
{
    match decode_image(source, format) {
        Ok(decoded) => scale_decoded(&decoded),
        Err(err) => Err(NormalizeError::Decode(error_text(&err))),
    }
}

/// Normalizes a source image for the temporary file `raster_path`: the image
/// to lay the canvas out for, and the PNG bytes to keep in that file, as
/// `stored_png` says. The size and the bytes are those of the thumbnail of
/// the source, and an error of the thumbnail is handed on as it is.
pub fn get_png(source: &[u8], format: SourceFormat, raster_path: String) -> (made: Result<
    (NormalizedImage, Vec<u8>),
    NormalizeError,
>)
    ensures
        stored_outcome(made) == stored_png(source@, format, raster_path@),
        made matches Ok(stored) ==> stored.0.wf() && stored.0.raster_path == raster_path,
{
    match to_small_png(source, format) {
        Ok(thumbnail) => Ok(thumbnail.stored_at(raster_path)),
        Err(err) => Err(err),
    }
}

} // verus!
