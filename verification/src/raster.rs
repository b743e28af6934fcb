//! Eight-bit RGB images, stored row by row with three bytes to the pixel.
use vstd::prelude::*;
use vstd::slice::slice_subrange;

verus! {

/// What an image shows: its size and its bytes in row order.
#[verifier::ext_equal]
pub struct Pixels {
    pub width: nat,
    pub height: nat,
    pub bytes: Seq<u8>,
}

impl Pixels {
    /// Every pixel of the image has its three bytes, and there are no others.
    pub open spec fn complete(self) -> bool {
        self.bytes.len() == 3 * (self.width * self.height)
    }

    /// The part of the image that lies in the rectangle with its upper left corner at
    /// `(x, y)`. The rectangle must lie within the image.
    pub open spec fn cropped(self, x: int, y: int, width: nat, height: nat) -> Pixels {
        Pixels {
            width,
            height,
            bytes: Seq::new(
                3 * (width * height),
                |k: int|
                    self.bytes[3 * ((y + k / (3 * width as int)) * self.width + x) + k % (
                    3 * width as int)],
            ),
        }
    }
}

/// An image of `width` by `height` pixels.
#[derive(Clone, Debug)]
pub struct RgbImage {
    pub width: u32,
    pub height: u32,
    pub data: Vec<u8>,
}

impl View for RgbImage {
    type V = Pixels;

    open spec fn view(&self) -> Pixels {
        Pixels { width: self.width as nat, height: self.height as nat, bytes: self.data@ }
    }
}

impl RgbImage {
    /// The buffer holds exactly the bytes of the image.
    pub open spec fn well_formed(&self) -> bool {
        self@.complete()
    }
}

/// Where byte `k` of a rectangle that is `width` pixels wide, with its corner at `(x, y)`,
/// is found in an image that is `stride` pixels wide.
spec fn source_index(x: int, y: int, width: int, stride: int, k: int) -> int {
    3 * ((y + k / (3 * width)) * stride + x) + k % (3 * width)
}

/// Byte `k` of row `row` of a rectangle.
proof fn lemma_source_index(x: int, y: int, width: int, stride: int, row: int, k: int)
    requires
        0 < width,
        0 <= row,
        3 * (row * width) <= k < 3 * ((row + 1) * width),
    ensures
        source_index(x, y, width, stride, k) == 3 * ((y + row) * stride + x) + (k - 3 * (row
            * width)),
{
    let r = k - 3 * (row * width);
    assert(3 * (row * width) == row * (3 * width)) by (nonlinear_arith);
    assert(r < 3 * width) by (nonlinear_arith)
        requires
            r == k - 3 * (row * width),
            k < 3 * ((row + 1) * width),
    ;
    vstd::arithmetic::div_mod::lemma_fundamental_div_mod_converse(k, 3 * width, row, r);
}

impl RgbImage {
    /// Copies the rectangle with its upper left corner at `(x, y)` out of the image. What
    /// sticks out of the image is cut off.
    pub fn crop(&self, x: u32, y: u32, width: u32, height: u32) -> (part: RgbImage)
        requires
            self.well_formed(),
        ensures
            part.well_formed(),
            ({
                let x0 = if x <= self.width { x as int } else { self.width as int };
                let y0 = if y <= self.height { y as int } else { self.height as int };
                let w = if width <= self.width - x0 { width as int } else { self.width - x0 };
                let h = if height <= self.height - y0 { height as int } else { self.height - y0 };
                part@ == self@.cropped(x0, y0, w as nat, h as nat)
            }),
    {
        let x0: u32 = if x <= self.width { x } else { self.width };
        let y0: u32 = if y <= self.height { y } else { self.height };
        let w: u32 = if width <= self.width - x0 { width } else { self.width - x0 };
        let h: u32 = if height <= self.height - y0 { height } else { self.height - y0 };
        let mut data: Vec<u8> = Vec::new();
        let ghost want = self@.cropped(x0 as int, y0 as int, w as nat, h as nat);
        let ghost (stride, rows) = (self.width as int, self.height as int);
        if w == 0 || h == 0 {
            assert(3 * (w * h) == 0) by (nonlinear_arith)
                requires
                    w == 0 || h == 0,
            ;
            assert(data@ =~= want.bytes);
            return RgbImage { width: w, height: h, data };
        }
        let mut row: u32 = 0;
        while row < h
            invariant
                self.well_formed(),
                0 < w,
                0 <= row <= h,
                x0 + w <= self.width,
                y0 + h <= self.height,
                stride == self.width,
                rows == self.height,
                want == self@.cropped(x0 as int, y0 as int, w as nat, h as nat),
                data@.len() == 3 * (row * w),
                forall|k: int| 0 <= k < data@.len() ==> data@[k] == want.bytes[k],
            decreases h - row,
        {
            let ghost before = data@;
            proof {
                assert(3 * ((y0 + row) * stride + x0) + 3 * w <= 3 * (stride * rows)) by (
                nonlinear_arith)
                    requires
                        x0 + w <= stride,
                        y0 + row + 1 <= rows,
                        0 <= stride,
                        0 <= x0,
                        0 <= w,
                ;
                assert(0 <= (y0 + row) * stride) by (nonlinear_arith)
                    requires
                        0 <= y0 + row,
                        0 <= stride,
                ;
                assert(self.data.len() == self.data@.len());
                assert((y0 + row) * stride == (y0 as usize + row as usize) * self.width);
                assert((row + 1) * w == row * w + w) by (nonlinear_arith);
                assert((row + 1) * w <= w * h) by (nonlinear_arith)
                    requires
                        row + 1 <= h,
                        0 <= w,
                ;
            }
            let start: usize = 3 * ((y0 as usize + row as usize) * self.width as usize
                + x0 as usize);
            let end: usize = start + 3 * w as usize;
            let part = slice_subrange(self.data.as_slice(), start, end);
            data.extend_from_slice(part);
            proof {
                assert forall|k: int| 0 <= k < data@.len() implies data@[k] == want.bytes[k] by {
                    if k >= before.len() {
                        lemma_source_index(
                            x0 as int,
                            y0 as int,
                            w as int,
                            stride,
                            row as int,
                            k,
                        );
                        assert(cloned::<u8>(part@[k - before.len()], data@[k]));
                    }
                }
            }
            row = row + 1;
        }
        assert(data@ =~= want.bytes) by {
            assert(w * h == h * w) by (nonlinear_arith);
        }
        RgbImage { width: w, height: h, data }
    }
}

/// A filter for resampling.
#[derive(Clone, Copy, Debug, PartialEq, Eq, Structural)]
pub enum Filter {
    Nearest,
    Triangle,
    CatmullRom,
    Gaussian,
    Lanczos3,
}

/// An axis of `size` pixels can be resampled to `new_size` pixels with the filter. The positions at
/// which an image is sampled are computed in single precision, and the last of them lies beyond the
/// end of the image by at most the distance between two numbers of that precision: a quarter of a
/// pixel on an axis of less than 4194304 pixels, and twice as much with each doubling of that
/// length. The nearest neighbor takes a pixel at any position. With the other filters a position that lies too far beyond the last
/// pixel leaves the pixels without a weight, and there is nothing to compute then. Their reach counts
/// in pixels of the image or of the result, whichever are larger. The triangle filter has weights
/// out to one pixel and the Gaussian filter out to seven. The weights of the other two are below
/// zero in part, and their sum is above zero for a position three quarters of a pixel beyond the
/// last one, or half a pixel where the axis shrinks to less than half its length. The weights for
/// one position, of four bytes each, have to fit in memory, together with the room to grow that a
/// vector keeps.
pub open spec fn can_sample(size: int, new_size: int, filter: Filter) -> bool {
    let exact = size == new_size && size < 8_388_608;
    match filter {
        Filter::Nearest => true,
        Filter::Gaussian => 8 * size <= isize::MAX && (size < 33_554_432 || new_size <= 25_165_824),
        Filter::Triangle => {
            &&& 8 * size <= isize::MAX
            &&& {
                ||| exact
                ||| size < 4_194_304
                ||| size < 8_388_608 && new_size < size
                ||| size < 16_777_216 && 2 * new_size + 2 <= size
                ||| new_size < 4_194_304
            }
        },
        Filter::CatmullRom | Filter::Lanczos3 => {
            &&& 8 * size <= isize::MAX
            &&& {
                ||| exact
                ||| size < 4_194_304
                ||| size < 8_388_608 && 4 * new_size <= 3 * size
                ||| size < 16_777_216 && 4 * new_size <= size
                ||| new_size <= 1_048_576
            }
        },
    }
}

/// An image of `width` by `height` pixels can be resampled to `new_width` by `new_height` with the
/// filter: the result can be held in memory, and so can the half-way image, which has the old width
/// and the new height and sixteen bytes to the pixel. An image that keeps its size or has no pixels
/// needs no sampling.
pub open spec fn resizable(
    width: int,
    height: int,
    new_width: int,
    new_height: int,
    filter: Filter,
) -> bool {
    &&& 3 * (new_width * new_height) <= isize::MAX
    &&& {
        ||| width == 0
        ||| height == 0
        ||| width == new_width && height == new_height
        ||| {
            &&& 16 * (width * new_height) <= isize::MAX
            &&& can_sample(width, new_width, filter)
            &&& can_sample(height, new_height, filter)
        }
    }
}

fn sampling_is_safe(size: u32, new_size: u32, filter: Filter) -> (safe: bool)
    ensures
        safe == can_sample(size as int, new_size as int, filter),
{
    if filter == Filter::Nearest {
        return true;
    }
    let limit: u64 = isize::MAX as u64;
    if 8 * size as u64 > limit {
        return false;
    }
    let old: u64 = size as u64;
    let new: u64 = new_size as u64;
    let exact = old == new && old < 8_388_608;
    match filter {
        Filter::Nearest => true,
        Filter::Gaussian => old < 33_554_432 || new <= 25_165_824,
        Filter::Triangle => exact || old < 4_194_304 || (old < 8_388_608 && new < old) || (old
            < 16_777_216 && 2 * new + 2 <= old) || new < 4_194_304,
        Filter::CatmullRom | Filter::Lanczos3 => exact || old < 4_194_304 || (old < 8_388_608 && 4
            * new <= 3 * old) || (old < 16_777_216 && 4 * new <= old) || new <= 1_048_576,
    }
}

/// Whether an image can be resampled to the new size with the filter.
pub fn can_resize(
    width: u32,
    height: u32,
    new_width: u32,
    new_height: u32,
    filter: Filter,
) -> (possible: bool)
    ensures
        possible == resizable(
            width as int,
            height as int,
            new_width as int,
            new_height as int,
            filter,
        ),
{
    assert(0 <= width * new_height <= 0xffff_ffff * 0xffff_ffff) by (nonlinear_arith)
        requires
            width <= 0xffff_ffff,
            new_height <= 0xffff_ffff,
    ;
    assert(0 <= new_width * new_height <= 0xffff_ffff * 0xffff_ffff) by (nonlinear_arith)
        requires
            new_width <= 0xffff_ffff,
            new_height <= 0xffff_ffff,
    ;
    let limit: u128 = isize::MAX as u128;
    if 3 * (new_width as u128 * new_height as u128) > limit {
        return false;
    }
    if width == 0 || height == 0 || (width == new_width && height == new_height) {
        return true;
    }
    16 * (width as u128 * new_height as u128) <= limit && sampling_is_safe(width, new_width, filter)
        && sampling_is_safe(height, new_height, filter)
}

/// The bytes that `image::imageops::resize` computes with the nearest neighbor or the triangle
/// filter for an image of the given bytes and size.
pub uninterp spec fn resampled(
    bytes: Seq<u8>,
    width: u32,
    height: u32,
    filter: Filter,
    new_width: u32,
    new_height: u32,
) -> Seq<u8>;

/// The resampler, called with an image that shows `image`, with the size of `result` and with the
/// filter, can hand out an image that shows `result`. That is all that holds of the filters whose
/// precision differs from one machine to the next, and it holds of nothing but the outcome of a
/// call.
pub closed spec fn is_outcome(image: Pixels, filter: Filter, result: Pixels) -> bool {
    exists|source: RgbImage, outcome: RgbImage|
        source@ == image && outcome@ == result && #[trigger] call_ensures(
            resample,
            (&source, outcome.width, outcome.height, filter),
            outcome,
        )
}

/// What is known of the result of resampling `image` to the size of `result`. It is an outcome of
/// the resampler for exactly this image, this size and this filter.
pub open spec fn is_resized(image: Pixels, filter: Filter, result: Pixels) -> bool {
    &&& is_outcome(image, filter, result)
    &&& result.complete()
    &&& (result.width == image.width && result.height == image.height) ==> result == image
    &&& (image.width == 0 || image.height == 0) ==> result.bytes == Seq::new(
        result.bytes.len(),
        |k: int| 0u8,
    )
    &&& (filter is Nearest || filter is Triangle) ==> result.bytes == resampled(
        image.bytes,
        image.width as u32,
        image.height as u32,
        filter,
        result.width as u32,
        result.height as u32,
    )
}

/// Resamples an image with `image::imageops::resize`. The result has the new size. Where the
/// size does not change it is a copy, and where there is nothing to sample it is black. With
/// the nearest neighbor and the triangle filter the bytes are what `resampled` names. The
/// other filters use functions whose precision differs from one machine to the next, so that
/// nothing more is stated of their bytes.
#[verifier::external_body]
fn resample(image: &RgbImage, width: u32, height: u32, filter: Filter) -> (result: RgbImage)
    requires
        image.well_formed(),
        resizable(image.width as int, image.height as int, width as int, height as int, filter),
    ensures
        result.width == width,
        result.height == height,
        result.well_formed(),
        (width == image.width && height == image.height) ==> result.data@ == image.data@,
        (image.width == 0 || image.height == 0) ==> result.data@ == Seq::new(
            result.data@.len(),
            |k: int| 0u8,
        ),
        (filter is Nearest || filter is Triangle) ==> result.data@ == resampled(
            image.data@,
            image.width,
            image.height,
            filter,
            width,
            height,
        ),
{
    let source: image::ImageBuffer<image::Rgb<u8>, &[u8]> =
        image::ImageBuffer::from_raw(image.width, image.height, image.data.as_slice()).unwrap();
    let filter = match filter {
        Filter::Nearest => image::imageops::FilterType::Nearest,
        Filter::Triangle => image::imageops::FilterType::Triangle,
        Filter::CatmullRom => image::imageops::FilterType::CatmullRom,
        Filter::Gaussian => image::imageops::FilterType::Gaussian,
        Filter::Lanczos3 => image::imageops::FilterType::Lanczos3,
    };
    let resized = image::imageops::resize(&source, width, height, filter);
    RgbImage { width: resized.width(), height: resized.height(), data: resized.into_raw() }
}

impl RgbImage {
    /// Resamples the image to a new size.
    pub fn resize(&self, width: u32, height: u32, filter: Filter) -> (result: RgbImage)
        requires
            self.well_formed(),
            resizable(self.width as int, self.height as int, width as int, height as int, filter),
        ensures
            result.well_formed(),
            result.width == width,
            result.height == height,
            is_resized(self@, filter, result@),
    {
        let result = resample(self, width, height, filter);
        proof {
            let source = *self;
            assert(call_ensures(
                resample,
                (&source, result.width, result.height, filter),
                result,
            ));
        }
        result
    }
}

/// An image of any of the pixel formats of the `image` crate.
#[verifier::external_type_specification]
#[verifier::external_body]
pub struct ExDynamicImage(image::DynamicImage);

/// The width of an image in pixels.
pub uninterp spec fn dynamic_width(image: image::DynamicImage) -> u32;

/// The height of an image in pixels.
pub uninterp spec fn dynamic_height(image: image::DynamicImage) -> u32;

/// The bytes of the pixels of an image as eight-bit RGB.
pub uninterp spec fn dynamic_rgb8(image: image::DynamicImage) -> Seq<u8>;

/// The samples of the pixels of an image whose pixels are gray or RGB, without transparency, with
/// eight-bit samples. Any other image has none of these.
pub uninterp spec fn dynamic_eight(image: image::DynamicImage) -> Option<Seq<u8>>;

/// The samples of the pixels of an image whose pixels are gray or RGB, without transparency, with
/// sixteen-bit samples. Any other image has none of these.
pub uninterp spec fn dynamic_sixteen(image: image::DynamicImage) -> Option<Seq<u16>>;

/// The pixels of an image are gray, without transparency.
pub uninterp spec fn dynamic_is_gray(image: image::DynamicImage) -> bool;

/// The eight-bit samples that the nearest neighbor takes from an image of the given samples and
/// size, which is gray or RGB.
pub uninterp spec fn nearest_eight(
    samples: Seq<u8>,
    gray: bool,
    width: u32,
    height: u32,
    new_width: u32,
    new_height: u32,
) -> Seq<u8>;

/// The sixteen-bit samples that the nearest neighbor takes from an image of the given samples and
/// size, which is gray or RGB.
pub uninterp spec fn nearest_sixteen(
    samples: Seq<u16>,
    gray: bool,
    width: u32,
    height: u32,
    new_width: u32,
    new_height: u32,
) -> Seq<u16>;

/// What an image shows as eight-bit RGB.
pub open spec fn dynamic_pixels(image: image::DynamicImage) -> Pixels {
    Pixels {
        width: dynamic_width(image) as nat,
        height: dynamic_height(image) as nat,
        bytes: dynamic_rgb8(image),
    }
}

/// Asks `image::GenericImageView::dimensions` for the size of an image, which `dynamic_width`
/// and `dynamic_height` name.
#[verifier::external_body]
fn dynamic_dims(image: &image::DynamicImage) -> (size: (u32, u32))
    ensures
        size.0 == dynamic_width(*image),
        size.1 == dynamic_height(*image),
{
    image::GenericImageView::dimensions(image)
}

/// Converts an image with `image::DynamicImage::into_rgb8` and hands out the buffer. The buffer
/// begins with the three bytes of each pixel, which `dynamic_rgb8` names. A buffer that was
/// eight-bit RGB before is handed out as it is, and may hold more bytes after the pixels.
#[verifier::external_body]
fn dynamic_into_rgb8(image: image::DynamicImage) -> (buffer: Vec<u8>)
    requires
        3 * (dynamic_width(image) * dynamic_height(image)) <= isize::MAX,
    ensures
        buffer@.len() >= 3 * (dynamic_width(image) * dynamic_height(image)),
        dynamic_rgb8(image) == buffer@.take(3 * (dynamic_width(image) * dynamic_height(image))),
{
    image.into_rgb8().into_raw()
}

/// The image `result` is `image`, resampled with the nearest neighbor to `width` by `height` pixels:
/// it is gray or not as before, its samples have as many bits as before, and they are taken from
/// those of `image`.
pub open spec fn is_nearest(
    image: image::DynamicImage,
    width: u32,
    height: u32,
    result: image::DynamicImage,
) -> bool {
    let (old_width, old_height) = (dynamic_width(image), dynamic_height(image));
    let gray = dynamic_is_gray(image);
    &&& dynamic_width(result) == width
    &&& dynamic_height(result) == height
    &&& dynamic_is_gray(result) == gray
    &&& dynamic_eight(result) == match dynamic_eight(image) {
        Some(samples) => Some(nearest_eight(samples, gray, old_width, old_height, width, height)),
        None => None,
    }
    &&& dynamic_sixteen(result) == match dynamic_sixteen(image) {
        Some(samples) => Some(nearest_sixteen(samples, gray, old_width, old_height, width, height)),
        None => None,
    }
    &&& dynamic_rgb8(result) == resampled(
        dynamic_rgb8(image),
        old_width,
        old_height,
        Filter::Nearest,
        width,
        height,
    )
}

/// Resamples an image to a new size with `image::DynamicImage::resize_exact` and the nearest
/// neighbor. The result has the new size and the pixel format of the image. Every pixel is copied
/// from the image, so that it makes no difference whether an image is resampled first or made
/// eight-bit RGB first. The samples of gray and RGB images are those that `nearest_eight` and
/// `nearest_sixteen` name.
#[verifier::external_body]
fn dynamic_nearest(image: &image::DynamicImage, width: u32, height: u32) -> (result:
    image::DynamicImage)
    requires
        resizable(
            dynamic_width(*image) as int,
            dynamic_height(*image) as int,
            width as int,
            height as int,
            Filter::Nearest,
        ),
        16 * (width * height) <= isize::MAX,
    ensures
        dynamic_width(result) == width,
        dynamic_height(result) == height,
        dynamic_is_gray(result) == dynamic_is_gray(*image),
        dynamic_eight(result) == match dynamic_eight(*image) {
            Some(samples) => Some(
                nearest_eight(
                    samples,
                    dynamic_is_gray(*image),
                    dynamic_width(*image),
                    dynamic_height(*image),
                    width,
                    height,
                ),
            ),
            None => None,
        },
        dynamic_sixteen(result) == match dynamic_sixteen(*image) {
            Some(samples) => Some(
                nearest_sixteen(
                    samples,
                    dynamic_is_gray(*image),
                    dynamic_width(*image),
                    dynamic_height(*image),
                    width,
                    height,
                ),
            ),
            None => None,
        },
        dynamic_rgb8(result) == resampled(
            dynamic_rgb8(*image),
            dynamic_width(*image),
            dynamic_height(*image),
            Filter::Nearest,
            width,
            height,
        ),
{
    image.resize_exact(width, height, image::imageops::FilterType::Nearest)
}

/// Whether an image of `width` by `height` pixels fits in memory as eight-bit RGB.
pub open spec fn fits_rgb8(width: int, height: int) -> bool {
    3 * (width * height) <= isize::MAX
}

impl RgbImage {
    /// Converts an image to eight-bit RGB. There is no result for an image whose bytes could
    /// not be held in memory.
    pub fn from_dynamic(image: image::DynamicImage) -> (result: Option<RgbImage>)
        ensures
            match result {
                Some(rgb) => rgb.well_formed() && rgb@ == dynamic_pixels(image) && fits_rgb8(
                    rgb.width as int,
                    rgb.height as int,
                ),
                None => !fits_rgb8(dynamic_width(image) as int, dynamic_height(image) as int),
            },
    {
        let (width, height) = dynamic_dims(&image);
        assert(0 <= width * height <= 0xffff_ffff * 0xffff_ffff) by (nonlinear_arith)
            requires
                width <= 0xffff_ffff,
                height <= 0xffff_ffff,
        ;
        let size: u128 = 3 * (width as u128 * height as u128);
        if size > isize::MAX as u128 {
            return None;
        }
        let mut data: Vec<u8> = dynamic_into_rgb8(image);
        data.truncate(size as usize);
        Some(RgbImage { width, height, data })
    }

    /// The image in a buffer that holds exactly the bytes of its pixels.
    pub fn from_raw(width: u32, height: u32, data: Vec<u8>) -> (image: RgbImage)
        requires
            data@.len() == 3 * (width * height),
        ensures
            image.well_formed(),
            image.width == width,
            image.height == height,
            image.data == data,
    {
        RgbImage { width, height, data }
    }
}

/// Sides of the pictures that are saved as PNG.
pub const PNG_SIDE: u32 = 1024;

/// Resamples an image to the size of a saved picture, with the nearest neighbor. There is no
/// result for an image that cannot be resampled.
pub fn png_picture(image: &image::DynamicImage) -> (picture: Option<image::DynamicImage>)
    ensures
        picture matches Some(picture) ==> is_nearest(*image, PNG_SIDE, PNG_SIDE, picture),
        picture is Some <==> resizable(
            dynamic_width(*image) as int,
            dynamic_height(*image) as int,
            PNG_SIDE as int,
            PNG_SIDE as int,
            Filter::Nearest,
        ),
{
    let (width, height) = dynamic_dims(image);
    if can_resize(width, height, PNG_SIDE, PNG_SIDE, Filter::Nearest) {
        Some(dynamic_nearest(image, PNG_SIDE, PNG_SIDE))
    } else {
        None
    }
}

/// A crop that begins within the image is as wide and as high as was asked for, or as the image goes
/// on from there, and it shows the image to the pixel.
pub proof fn law_crop_shows_the_image(
    image: RgbImage,
    x: u32,
    y: u32,
    width: u32,
    height: u32,
    part: RgbImage,
    a: int,
    b: int,
    byte: int,
)
    requires
        call_ensures(RgbImage::crop, (&image, x, y, width, height), part),
        x <= image.width,
        y <= image.height,
    ensures
        part.width == width || (part.width < width && x + part.width == image.width),
        part.height == height || (part.height < height && y + part.height == image.height),
        x + part.width <= image.width,
        y + part.height <= image.height,
        part.data@.len() == 3 * (part.width * part.height),
        0 <= a < part.width && 0 <= b < part.height && 0 <= byte < 3 ==> part.data@[3 * (b
            * part.width + a) + byte] == image.data@[3 * ((y + b) * image.width + x + a) + byte],
{
    if 0 <= a < part.width && 0 <= b < part.height && 0 <= byte < 3 {
        let w = part.width as int;
        let index = 3 * (b * w + a) + byte;
        assert(index == b * (3 * w) + (3 * a + byte)) by (nonlinear_arith)
            requires
                index == 3 * (b * w + a) + byte,
        ;
        vstd::arithmetic::div_mod::lemma_fundamental_div_mod_converse(
            index,
            3 * w,
            b,
            3 * a + byte,
        );
        assert(0 <= index < 3 * (w * part.height)) by (nonlinear_arith)
            requires
                index == b * (3 * w) + (3 * a + byte),
                0 <= b,
                b + 1 <= part.height,
                0 <= 3 * a + byte < 3 * w,
        ;
    }
}

/// A crop that begins beyond an edge of the image is empty.
pub proof fn law_crop_outside_is_empty(
    image: RgbImage,
    x: u32,
    y: u32,
    width: u32,
    height: u32,
    part: RgbImage,
)
    requires
        call_ensures(RgbImage::crop, (&image, x, y, width, height), part),
        x > image.width || y > image.height,
    ensures
        part.data@.len() == 0,
        x > image.width ==> part.width == 0,
        y > image.height ==> part.height == 0,
{
    assert(part.width * part.height == 0) by (nonlinear_arith)
        requires
            part.width == 0 || part.height == 0,
    ;
}

/// A resized image has the new size and holds the bytes that the resampler gives for the bytes, the
/// size and the filter of this call.
pub proof fn law_resize_goes_by_its_arguments(
    image: RgbImage,
    width: u32,
    height: u32,
    filter: Filter,
    result: RgbImage,
)
    requires
        call_ensures(RgbImage::resize, (&image, width, height, filter), result),
    ensures
        result.width == width,
        result.height == height,
        result.data@.len() == 3 * (width * height),
        is_outcome(image@, filter, result@),
        filter == Filter::Nearest ==> result.data@ == resampled(
            image.data@,
            image.width,
            image.height,
            Filter::Nearest,
            width,
            height,
        ),
        filter == Filter::Triangle ==> result.data@ == resampled(
            image.data@,
            image.width,
            image.height,
            Filter::Triangle,
            width,
            height,
        ),
        width == image.width && height == image.height ==> result.data@ == image.data@,
{
}

/// An outcome comes from a call of the resampler with the image, the filter and the size of the
/// outcome, and from no other.
proof fn lemma_outcome_is_of_a_call(image: Pixels, filter: Filter, result: Pixels)
    requires
        is_outcome(image, filter, result),
    ensures
        exists|source: RgbImage, outcome: RgbImage|
            source.data@ == image.bytes && source.width == image.width && source.height
                == image.height && outcome.data@ == result.bytes && outcome.width == result.width
                && outcome.height == result.height && #[trigger] call_ensures(
                resample,
                (&source, outcome.width, outcome.height, filter),
                outcome,
            ),
{
}

/// Every image with sides below 4194304 pixels can be resampled to any such size with any filter, if
/// the result and the half-way image can be held in memory.
pub proof fn law_usual_images_can_be_resized(
    width: u32,
    height: u32,
    new_width: u32,
    new_height: u32,
    filter: Filter,
    possible: bool,
)
    requires
        call_ensures(can_resize, (width, height, new_width, new_height, filter), possible),
        width < 4_194_304,
        height < 4_194_304,
        16 * (width * new_height) <= isize::MAX,
        3 * (new_width * new_height) <= isize::MAX,
    ensures
        possible,
{
    assert(8 * 4_194_304 <= isize::MAX);
}

/// A size that cannot be held in memory is never accepted.
pub proof fn law_resized_images_fit_in_memory(
    width: u32,
    height: u32,
    new_width: u32,
    new_height: u32,
    filter: Filter,
    possible: bool,
)
    requires
        call_ensures(can_resize, (width, height, new_width, new_height, filter), possible),
        3 * (new_width * new_height) > isize::MAX,
    ensures
        !possible,
{
}

/// An image as eight-bit RGB has the size and the bytes of the image.
pub proof fn law_conversion_keeps_the_picture(
    image: image::DynamicImage,
    result: Option<RgbImage>,
)
    requires
        call_ensures(RgbImage::from_dynamic, (image,), result),
    ensures
        result is Some <==> 3 * (dynamic_width(image) * dynamic_height(image)) <= isize::MAX,
        result matches Some(rgb) ==> rgb.width == dynamic_width(image) && rgb.height
            == dynamic_height(image) && rgb.data@ == dynamic_rgb8(image) && rgb.data@.len() == 3 * (
        rgb.width * rgb.height),
{
}

/// An image that is put together from a buffer has the size and the bytes that were given.
pub proof fn law_raw_images_keep_their_bytes(
    width: u32,
    height: u32,
    data: Vec<u8>,
    image: RgbImage,
)
    requires
        call_ensures(RgbImage::from_raw, (width, height, data), image),
    ensures
        image.width == width,
        image.height == height,
        image.data@ == data@,
{
}

/// A saved picture is 1024 pixels wide and high. It is gray if the image is, its samples have as
/// many bits as those of the image, and they are those that the nearest neighbor takes from it.
/// Every image that fits in memory has one.
pub proof fn law_pictures_come_from_their_images(
    image: image::DynamicImage,
    picture: Option<image::DynamicImage>,
)
    requires
        call_ensures(png_picture, (&image,), picture),
    ensures
        16 * (dynamic_width(image) * 1024) <= isize::MAX && 3 * (1024 * 1024) <= isize::MAX
            ==> picture is Some,
        picture matches Some(picture) ==> {
            let (width, height) = (dynamic_width(image), dynamic_height(image));
            &&& dynamic_width(picture) == 1024
            &&& dynamic_height(picture) == 1024
            &&& dynamic_is_gray(picture) == dynamic_is_gray(image)
            &&& dynamic_eight(picture) is Some <==> dynamic_eight(image) is Some
            &&& dynamic_sixteen(picture) is Some <==> dynamic_sixteen(image) is Some
            &&& dynamic_eight(image) matches Some(samples) ==> dynamic_eight(picture) == Some(
                nearest_eight(samples, dynamic_is_gray(image), width, height, 1024, 1024),
            )
            &&& dynamic_sixteen(image) matches Some(samples) ==> dynamic_sixteen(picture) == Some(
                nearest_sixteen(samples, dynamic_is_gray(image), width, height, 1024, 1024),
            )
            &&& dynamic_rgb8(picture) == resampled(
                dynamic_rgb8(image),
                width,
                height,
                Filter::Nearest,
                1024,
                1024,
            )
        },
{
}

/// The nearest neighbor resamples images of any size, and the other filters those that shrink to a
/// quarter of sides below 16777216 pixels, or to at most 1048576 pixels, along both axes, if what
/// is computed on the way fits in memory.
pub proof fn law_long_images_can_shrink(
    width: u32,
    height: u32,
    new_width: u32,
    new_height: u32,
    filter: Filter,
    possible: bool,
)
    requires
        call_ensures(can_resize, (width, height, new_width, new_height, filter), possible),
        3 * (new_width * new_height) <= isize::MAX,
        16 * (width * new_height) <= isize::MAX,
        filter is Nearest || (8 * width <= isize::MAX && 8 * height <= isize::MAX),
        filter is Nearest || new_width <= 1_048_576 || (4 * new_width <= width && width
            < 16_777_216),
        filter is Nearest || new_height <= 1_048_576 || (4 * new_height <= height && height
            < 16_777_216),
    ensures
        possible,
{
}

/// An image that keeps its size, or that has no pixels, can always be resampled to a size that fits
/// in memory.
pub proof fn law_images_without_sampling_can_be_resized(
    width: u32,
    height: u32,
    new_width: u32,
    new_height: u32,
    filter: Filter,
    possible: bool,
)
    requires
        call_ensures(can_resize, (width, height, new_width, new_height, filter), possible),
        3 * (new_width * new_height) <= isize::MAX,
        width == 0 || height == 0 || (width == new_width && height == new_height),
    ensures
        possible,
{
}

/// An axis on which a position may lie beyond the reach of the triangle, cubic and Lanczos filters is
/// refused: one of at least 8388608 pixels that grows, or that keeps its length in an image that
/// does not.
pub proof fn law_long_axes_do_not_grow(
    width: u32,
    height: u32,
    new_width: u32,
    new_height: u32,
    filter: Filter,
    possible: bool,
)
    requires
        call_ensures(can_resize, (width, height, new_width, new_height, filter), possible),
        filter is Triangle || filter is CatmullRom || filter is Lanczos3,
        0 < width,
        0 < height,
        width != new_width || height != new_height,
        (width >= 8_388_608 && new_width >= width) || (height >= 8_388_608 && new_height >= height),
    ensures
        !possible,
{
}

} // verus!
