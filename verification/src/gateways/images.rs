use vstd::prelude::*;
use vstd::string::*;

use crate::common::error::Error;
use crate::common::format::{Backend, Format};
use crate::common::variant::Variant;
use crate::entities::stored_image::Image;
use crate::usecases::gateways::{Images, Storage, Video};
use crate::usecases::upload_image::{UploadImage, UploadRequest};

verus! {

/// A decoded image, as the `image` crate holds it.
#[verifier::external_type_specification]
#[verifier::external_body]
pub struct ExDynamicImage(image::DynamicImage);

/// A failure of the `image` crate.
#[verifier::external_type_specification]
#[verifier::external_body]
pub struct ExImageError(image::ImageError);

/// The image backend: decodes a still image, scales it down to fit its
/// variant's bounding box and encodes it as WebP, all in memory.
pub struct ImagesImpl {}

/// Builds the image backend.
pub fn new() -> (backend: ImagesImpl)
    ensures
        backend == (ImagesImpl {}),
{
    ImagesImpl {}
}

/// The decoders the image backend uses.
#[derive(Debug, Clone, Copy, PartialEq, Eq, Structural)]
pub enum Codec {
    Jpeg,
    Png,
    WebP,
}

/// The decoder for a format, if it is a still image.
pub open spec fn codec_of(format: Format) -> Option<Codec> {
    match format {
        Format::Jpeg => Some(Codec::Jpeg),
        Format::Png => Some(Codec::Png),
        Format::WebP => Some(Codec::WebP),
        _ => None,
    }
}

/// Picks the decoder for a format; moving images have none.
pub fn get_image_format(format: Format) -> (res: Result<Codec, Error>)
    ensures
        match codec_of(format) {
            Some(codec) => res == Ok::<Codec, Error>(codec),
            None => res == Err::<Codec, Error>(Error::FormatUnsupported),
        },
        res is Ok <==> format.backend_of() == Backend::Image,
{
    match format {
        Format::Jpeg => Ok(Codec::Jpeg),
        Format::Png => Ok(Codec::Png),
        Format::WebP => Ok(Codec::WebP),
        _ => Err(Error::FormatUnsupported),
    }
}

/// `side * num / den`, rounded to the nearest whole number, halves upward,
/// and never less than one.
pub open spec fn scaled(side: int, num: int, den: int) -> int {
    let rounded = (2 * side * num + den) / (2 * den);
    if rounded < 1 {
        1
    } else {
        rounded
    }
}

/// The smaller of two sizes.
pub open spec fn smaller(a: u32, b: u32) -> u32 {
    if a <= b {
        a
    } else {
        b
    }
}

/// The size an image of `width` by `height` is given so that it fits within
/// `max_width` by `max_height`. An image that already fits keeps its size:
/// nothing is ever scaled up. Otherwise the side that overshoots more is
/// set to the box's, and the other side follows in proportion.
pub open spec fn fit_within(width: u32, height: u32, max_width: u32, max_height: u32) -> (
    u32,
    u32,
) {
    if width <= max_width && height <= max_height {
        (width, height)
    } else if width == 0 || height == 0 {
        (smaller(width, max_width), smaller(height, max_height))
    } else if max_width * height <= max_height * width {
        (max_width, scaled(height as int, max_width as int, width as int) as u32)
    } else {
        (scaled(width as int, max_height as int, height as int) as u32, max_height)
    }
}

/// Width and height of a decoded image, in pixels.
pub uninterp spec fn pixel_size(img: image::DynamicImage) -> (u32, u32);

/// The image that `data` decodes to with the decoder for `codec`, or `None`
/// where it does not decode.
pub uninterp spec fn decoded_image(data: Seq<u8>, codec: Codec) -> Option<image::DynamicImage>;

/// The image that resampling `img` to `width` by `height` pixels gives.
pub uninterp spec fn resampled(
    img: image::DynamicImage,
    width: u32,
    height: u32,
) -> image::DynamicImage;

/// The WebP encoding of an image, or `None` where it has none.
pub uninterp spec fn webp_bytes(img: image::DynamicImage) -> Option<Seq<u8>>;

/// The image that is encoded for `variant`: `img` itself if it fits the
/// variant's bounding box, else `img` resampled to the size that does.
pub open spec fn fitted(img: image::DynamicImage, variant: Variant) -> image::DynamicImage {
    let size = pixel_size(img);
    let target = fit_within(size.0, size.1, variant.bounds().0, variant.bounds().1);
    if target == size {
        img
    } else {
        resampled(img, target.0, target.1)
    }
}

/// Calls `image::load_from_memory_with_format` with the decoder for `codec`.
///
/// Trusted: decoding depends on the bytes and the decoder alone, so the
/// image, or the failure to decode, is the named `decoded_image`.
#[verifier::external_body]
fn decode(data: &[u8], codec: Codec) -> (res: Result<image::DynamicImage, image::ImageError>)
    ensures
        match res {
            Ok(img) => decoded_image(data@, codec) == Some(img),
            Err(_) => decoded_image(data@, codec) is None,
        },
{
    let format = match codec {
        Codec::Jpeg => image::ImageFormat::Jpeg,
        Codec::Png => image::ImageFormat::Png,
        Codec::WebP => image::ImageFormat::WebP,
    };
    image::load_from_memory_with_format(data, format)
}

/// Calls `DynamicImage::width` and `DynamicImage::height`.
///
/// Trusted: the pair is the image's size in pixels, named `pixel_size`.
#[verifier::external_body]
fn dimensions(img: &image::DynamicImage) -> (size: (u32, u32))
    ensures
        size == pixel_size(*img),
{
    (img.width(), img.height())
}

/// Whether a buffer of `width` by `height` pixels can be allocated: at up
/// to sixteen bytes a pixel it must not outgrow the address space.
pub open spec fn allocatable(width: u32, height: u32) -> bool {
    16 * width * height <= isize::MAX
}

/// Calls `DynamicImage::resize_exact` with the Catmull-Rom filter.
///
/// Trusted: the new image depends on the source and the asked size alone,
/// so it is the named `resampled`, and it is `width` by `height` pixels.
/// The resampler allocates two buffers, one as wide as the source and
/// `height` high, one of the new size, and panics if either cannot be; and
/// it samples only where the new size has pixels or the source has none.
#[verifier::external_body]
fn resize_exact(img: &image::DynamicImage, width: u32, height: u32) -> (out: image::DynamicImage)
    requires
        (width >= 1 && height >= 1) || pixel_size(*img).0 == 0 || pixel_size(*img).1 == 0,
        allocatable(width, height),
        allocatable(pixel_size(*img).0, height),
    ensures
        out == resampled(*img, width, height),
        pixel_size(out) == (width, height),
{
    img.resize_exact(width, height, image::imageops::FilterType::CatmullRom)
}

/// Calls `DynamicImage::write_to` with the WebP format, into memory.
///
/// Trusted: encoding depends on the image alone, so the bytes, or the
/// failure to encode, are the named `webp_bytes`.
#[verifier::external_body]
fn encode_webp(img: &image::DynamicImage) -> (res: Result<Vec<u8>, image::ImageError>)
    ensures
        match res {
            Ok(bytes) => webp_bytes(*img) == Some(bytes@),
            Err(_) => webp_bytes(*img) is None,
        },
{
    let mut buffer = std::io::Cursor::new(Vec::new());
    match img.write_to(&mut buffer, image::ImageFormat::WebP) {
        Ok(_) => Ok(buffer.into_inner()),
        Err(e) => Err(e),
    }
}

/// Formats an `image::ImageError` as text.
///
/// Trusted, and nothing is claimed of the text.
#[verifier::external_body]
fn describe(error: &image::ImageError) -> (text: String) {
    error.to_string()
}

impl ImagesImpl {
    /// The size an image of `width` by `height` pixels is given for
    /// `variant`: unchanged if it fits the variant's bounding box, else
    /// scaled down, in proportion, until it does.
    pub fn target_size(variant: Variant, width: u32, height: u32) -> (size: (u32, u32))
        ensures
            size == fit_within(width, height, variant.bounds().0, variant.bounds().1),
    {
        let (max_width, max_height) = variant.bounding_box();
        if width <= max_width && height <= max_height {
            (width, height)
        } else if width == 0 || height == 0 {
            (
                if width <= max_width {
                    width
                } else {
                    max_width
                },
                if height <= max_height {
                    height
                } else {
                    max_height
                },
            )
        } else {
            let w: u64 = width as u64;
            let h: u64 = height as u64;
            let mw: u64 = max_width as u64;
            let mh: u64 = max_height as u64;
            assert(mw <= 800 && mh <= 800);
            assert(mw * h <= 800 * 0x1_0000_0000 && mh * w <= 800 * 0x1_0000_0000 && h * mw == mw
                * h && w * mh == mh * w) by (nonlinear_arith)
                requires
                    mw <= 800,
                    mh <= 800,
                    w < 0x1_0000_0000,
                    h < 0x1_0000_0000,
            ;
            if mw * h <= mh * w {
                proof {
                    lemma_scaled_side_fits(h as int, mw as int, w as int, mh as int);
                }
                let rounded: u64 = (2 * (h * mw) + w) / (2 * w);
                assert(2 * h * mw == 2 * (h * mw)) by (nonlinear_arith);
                let other: u64 = if rounded < 1 {
                    1
                } else {
                    rounded
                };
                (max_width, other as u32)
            } else {
                proof {
                    lemma_scaled_side_fits(w as int, mh as int, h as int, mw as int);
                }
                let rounded: u64 = (2 * (w * mh) + h) / (2 * h);
                assert(2 * w * mh == 2 * (w * mh)) by (nonlinear_arith);
                let other: u64 = if rounded < 1 {
                    1
                } else {
                    rounded
                };
                (other as u32, max_height)
            }
        }
    }

    /// Scales a decoded image down to fit its variant's bounding box. An
    /// image that already fits is handed back untouched. An image so wide
    /// that a strip of it, as high as the new size, cannot be held in
    /// memory is refused with `EncodeFailed`.
    pub fn resize(img: image::DynamicImage, variant: Variant) -> (res: Result<
        image::DynamicImage,
        Error,
    >)
        ensures
            ({
                let size = pixel_size(img);
                let target = fit_within(size.0, size.1, variant.bounds().0, variant.bounds().1);
                if target == size || allocatable(size.0, target.1) {
                    res matches Ok(out) && out == fitted(img, variant) && pixel_size(out) == target
                } else {
                    res matches Err(Error::EncodeFailed(_))
                }
            }),
    {
        let (width, height) = dimensions(&img);
        let (new_width, new_height) = Self::target_size(variant, width, height);
        if new_width == width && new_height == height {
            return Ok(img);
        }
        proof {
            lemma_resizing_stays_within(variant, width, height);
        }
        assert(new_width <= 800 && new_height <= 800);
        assert(16 * new_width * new_height <= 16 * 800 * 800) by (nonlinear_arith)
            requires
                new_width <= 800,
                new_height <= 800,
        ;
        assert(16 * width * new_height <= 16 * 0xffff_ffff * 800) by (nonlinear_arith)
            requires
                width <= 0xffff_ffff,
                new_height <= 800,
        ;
        let strip: u64 = 16 * (width as u64) * (new_height as u64);
        if strip > isize::MAX as u64 {
            return Err(Error::EncodeFailed(String::from_str("image is too wide to resample")));
        }
        Ok(resize_exact(&img, new_width, new_height))
    }

    /// What generation yields once the encoder has answered: the bytes as
    /// WebP, or `EncodeFailed` with the encoder's complaint.
    pub fn encoded(answer: Result<Vec<u8>, String>) -> (res: Result<(Vec<u8>, Format), Error>)
        ensures
            match answer {
                Ok(bytes) => res == Ok::<(Vec<u8>, Format), Error>((bytes, Format::WebP)),
                Err(detail) => res == Err::<(Vec<u8>, Format), Error>(Error::EncodeFailed(detail)),
            },
    {
        match answer {
            Ok(bytes) => Ok((bytes, Format::WebP)),
            Err(detail) => Err(Error::EncodeFailed(detail)),
        }
    }
}

/// What the image backend owes for a still image: `img` is what the input
/// decoded to. An image without pixels is refused as undecodable; one too
/// wide to resample is refused with `EncodeFailed`; otherwise the result is
/// the WebP encoding of the image fitted to the variant, which has pixels,
/// exceeds neither the variant's bounding box nor the source, and keeps the
/// source's proportions.
pub open spec fn generated_from(
    img: image::DynamicImage,
    variant: Variant,
    res: Result<(Vec<u8>, Format), Error>,
) -> bool {
    let size = pixel_size(img);
    let target = fit_within(size.0, size.1, variant.bounds().0, variant.bounds().1);
    if size.0 == 0 || size.1 == 0 {
        res matches Err(Error::DecodeFailed(_))
    } else if target != size && !allocatable(size.0, target.1) {
        res matches Err(Error::EncodeFailed(_))
    } else {
        match webp_bytes(fitted(img, variant)) {
            Some(bytes) => {
                &&& res matches Ok((out, Format::WebP)) && out@ == bytes
                &&& pixel_size(fitted(img, variant)) == target
                &&& 1 <= target.0 <= variant.bounds().0
                &&& 1 <= target.1 <= variant.bounds().1
                &&& target.0 <= size.0
                &&& target.1 <= size.1
            },
            None => res matches Err(Error::EncodeFailed(_)),
        }
    }
}

impl Images for ImagesImpl {
    /// Decodes `data` as `input_format`, scales it down to fit the
    /// bounding box of `variant`, and encodes it as WebP.
    ///
    /// A format that is not a still image is refused with
    /// `FormatUnsupported` before anything is decoded. Bytes that do not
    /// decode, or decode to an image without pixels, give `DecodeFailed`.
    /// Of an image that decodes, the result is the WebP encoding of the
    /// image fitted to the variant, or `EncodeFailed` where it has none.
    fn format(&self, data: &[u8], variant: Variant, input_format: Format) -> (res: Result<
        (Vec<u8>, Format),
        Error,
    >)
        ensures
            match codec_of(input_format) {
                None => res == Err::<(Vec<u8>, Format), Error>(Error::FormatUnsupported),
                Some(codec) => match decoded_image(data@, codec) {
                    None => res matches Err(Error::DecodeFailed(_)),
                    Some(img) => generated_from(img, variant, res),
                },
            },
    {
        let codec = match get_image_format(input_format) {
            Ok(codec) => codec,
            Err(e) => {
                return Err(e);
            },
        };
        let decoded = match decode(data, codec) {
            Ok(img) => img,
            Err(e) => {
                return Err(Error::DecodeFailed(describe(&e)));
            },
        };
        let (width, height) = dimensions(&decoded);
        if width == 0 || height == 0 {
            return Err(Error::DecodeFailed(String::from_str("image has no pixels")));
        }
        proof {
            lemma_resizing_stays_within(variant, width, height);
        }
        let resized = match Self::resize(decoded, variant) {
            Ok(img) => img,
            Err(e) => {
                return Err(e);
            },
        };
        let answer = match encode_webp(&resized) {
            Ok(bytes) => Ok(bytes),
            Err(e) => Err(describe(&e)),
        };
        Self::encoded(answer)
    }
}

/// A still image that the pipeline ingests through this backend is stored
/// under its own content type, and its variant as WebP: whatever the store
/// and the requested variant, an asset that results from JPEG, PNG or WebP
/// input has the input format's content type for its original and
/// `image/webp` for its derived artifact.
pub proof fn lemma_stills_are_derived_as_webp<S: Storage, V: Video>(
    pipeline: UploadImage<S, ImagesImpl, V>,
    file_name: String,
    data: &[u8],
    variant: Variant,
    generated: Result<(Vec<u8>, Format), Error>,
    first: UploadRequest,
    second: UploadRequest,
    original: Result<String, Error>,
    derived: Result<String, Error>,
    res: Result<Image, Error>,
)
    requires
        pipeline.ingests(file_name, data, variant, generated, first, second, original, derived, res),
    ensures
        match (crate::common::format::detected_format(data@), res) {
            (Ok(input), Ok(image)) => input.backend_of() == Backend::Image ==> {
                &&& image@.file_name == file_name@
                &&& image@.original_content_type == input.mime()
                &&& image@.formatted_content_type == Format::WebP.mime()
                &&& first.variant == Variant::Original
                &&& second.variant == variant
                &&& second.content_type@ == Format::WebP.mime()
            },
            _ => true,
        },
{
}

/// With `num * side <= cap * den`, the proportional size `side * num / den`
/// is at most `cap` after rounding; and with `num <= den` it is at most
/// `side`.
proof fn lemma_scaled_side_fits(side: int, num: int, den: int, cap: int)
    requires
        side >= 1,
        den >= 1,
        num >= 0,
        cap >= 1,
        num * side <= cap * den,
    ensures
        1 <= scaled(side, num, den) <= cap,
        num <= den ==> scaled(side, num, den) <= side,
        (2 * side * num + den) / (2 * den) <= cap,
        (2 * side * num + den) >= 0,
{
    let r = (2 * side * num + den) / (2 * den);
    assert(2 * side * num + den <= 2 * cap * den + den) by (nonlinear_arith)
        requires
            num * side <= cap * den,
    ;
    assert(2 * side * num + den >= 0) by (nonlinear_arith)
        requires
            side >= 1,
            num >= 0,
            den >= 1,
    ;
    assert(r <= cap) by (nonlinear_arith)
        requires
            r == (2 * side * num + den) / (2 * den),
            2 * side * num + den <= 2 * cap * den + den,
            den >= 1,
    ;
    if num <= den {
        assert(2 * side * num + den <= 2 * side * den + den) by (nonlinear_arith)
            requires
                num <= den,
                side >= 1,
        ;
        assert(r <= side) by (nonlinear_arith)
            requires
                r == (2 * side * num + den) / (2 * den),
                2 * side * num + den <= 2 * side * den + den,
                den >= 1,
        ;
    }
}

/// The distance between two whole numbers.
pub open spec fn distance(a: int, b: int) -> int {
    if a <= b {
        b - a
    } else {
        a - b
    }
}

/// A proportional size that was not raised to one pixel is off by at most
/// half a pixel: twice the distance between `scaled * den` and `side * num`
/// is at most `den`.
proof fn lemma_scaled_is_nearest(side: int, num: int, den: int)
    requires
        side >= 0,
        num >= 0,
        den >= 1,
    ensures
        scaled(side, num, den) == 1 || 2 * distance(scaled(side, num, den) * den, side * num)
            <= den,
{
    let x = 2 * side * num + den;
    let d = 2 * den;
    let r = x / d;
    assert(x >= 0) by (nonlinear_arith)
        requires
            x == 2 * side * num + den,
            side >= 0,
            num >= 0,
            den >= 1,
    ;
    assert(d * r <= x < d * r + d) by (nonlinear_arith)
        requires
            r == x / d,
            d >= 1,
            x >= 0,
    ;
    if r >= 1 {
        assert(2 * (r * den) == d * r && 2 * (side * num) == x - den) by (nonlinear_arith)
            requires
                d == 2 * den,
                x == 2 * side * num + den,
        ;
    }
}

/// Resizing stays within the source and within the box: the size given to
/// an image for a variant exceeds neither the image's own width or height
/// nor the variant's bounding box. Of an image that has pixels, the new
/// size has pixels too, and it keeps the proportions up to rounding: one of
/// its sides is the other side's proportional counterpart, rounded to the
/// nearest pixel, so that, unless a side was raised to one pixel, the two
/// cross products of old and new sides differ by at most half the longer
/// old side.
pub proof fn lemma_resizing_stays_within(variant: Variant, width: u32, height: u32)
    ensures
        ({
            let (max_width, max_height) = variant.bounds();
            let (new_width, new_height) = fit_within(width, height, max_width, max_height);
            &&& new_width <= width
            &&& new_height <= height
            &&& new_width <= max_width
            &&& new_height <= max_height
            &&& (width >= 1 && height >= 1) ==> {
                &&& new_width >= 1
                &&& new_height >= 1
                &&& (new_height == scaled(height as int, new_width as int, width as int)
                    || new_width == scaled(width as int, new_height as int, height as int))
                &&& (new_width == 1 || new_height == 1 || 2 * distance(
                    new_height * width,
                    height * new_width,
                ) <= if width >= height {
                    width
                } else {
                    height
                })
            }
        }),
{
    let (max_width, max_height) = variant.bounds();
    let w = width as int;
    let h = height as int;
    let mw = max_width as int;
    let mh = max_height as int;
    if width <= max_width && height <= max_height {
        if width >= 1 && height >= 1 {
            assert((2 * h * w + w) / (2 * w) == h) by (nonlinear_arith)
                requires
                    w >= 1,
                    h >= 1,
            ;
            assert(h * w == w * h) by (nonlinear_arith);
        }
    } else if width == 0 || height == 0 {
    } else if mw * h <= mh * w {
        lemma_scaled_side_fits(h, mw, w, mh);
        lemma_scaled_is_nearest(h, mw, w);
        assert(mw <= w) by (nonlinear_arith)
            requires
                mw * h <= mh * w,
                !(w <= mw && h <= mh),
                w >= 1,
                h >= 1,
                mw >= 1,
                mh >= 1,
        ;
    } else {
        lemma_scaled_side_fits(w, mh, h, mw);
        lemma_scaled_is_nearest(w, mh, h);
        let nw = scaled(w, mh, h);
        assert(mh <= h) by (nonlinear_arith)
            requires
                mw * h > mh * w,
                !(w <= mw && h <= mh),
                w >= 1,
                h >= 1,
                mw >= 1,
                mh >= 1,
        ;
        assert(mh * w == w * mh && nw * h == h * nw) by (nonlinear_arith);
    }
}

} // verus!
