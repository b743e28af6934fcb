//! Frames as the camera delivers them, and how they become pictures.
use vstd::prelude::*;

use crate::raster::{
    dynamic_eight, dynamic_height, dynamic_is_gray, dynamic_rgb8, dynamic_sixteen, dynamic_width,
};

verus! {

/// The order of the colours in the blocks of two by two samples of a Bayer mosaic.
#[derive(Clone, Copy, Debug, PartialEq, Eq, Structural)]
pub enum BayerPattern {
    Bggr,
    Gbrg,
    Grbg,
    Rggb,
}

/// The colour space of a frame that is no mosaic.
#[derive(Clone, Copy, Debug, PartialEq, Eq, Structural)]
pub enum PlainColor {
    Gray,
    Rgb,
    /// Another colour space with so many channels.
    Custom(u8),
}

/// What the samples of a frame stand for.
#[derive(Clone, Copy, Debug, PartialEq, Eq, Structural)]
pub enum FrameColor {
    Bayer(BayerPattern),
    Plain(PlainColor),
}

impl FrameColor {
    /// Samples per pixel.
    pub open spec fn channels(self) -> nat {
        match self {
            FrameColor::Bayer(_) | FrameColor::Plain(PlainColor::Gray) => 1,
            FrameColor::Plain(PlainColor::Rgb) => 3,
            FrameColor::Plain(PlainColor::Custom(channels)) => channels as nat,
        }
    }
}

/// The samples of a frame, row by row.
#[derive(Debug)]
pub enum Samples {
    Eight(Vec<u8>),
    Sixteen(Vec<u16>),
}

impl Samples {
    pub open spec fn count(self) -> nat {
        match self {
            Samples::Eight(data) => data@.len(),
            Samples::Sixteen(data) => data@.len(),
        }
    }
}

/// A frame with integer samples.
#[derive(Debug)]
pub struct Frame {
    pub width: u16,
    pub height: u16,
    pub color: FrameColor,
    pub samples: Samples,
}

impl Frame {
    /// The frame is not empty and holds exactly the samples of its pixels.
    pub open spec fn well_formed(self) -> bool {
        &&& 0 < self.width
        &&& 0 < self.height
        &&& 0 < self.color.channels()
        &&& self.samples.count() == self.color.channels() * (self.width * self.height)
    }

    /// The colours of a mosaic of this size can be held in memory.
    pub open spec fn fits_demosaiced(self) -> bool {
        6 * (self.width * self.height) <= isize::MAX
    }
}

impl BayerPattern {
    /// The colour of the sample in column `x` of row `y`: 0 for red, 1 for green and 2 for blue.
    pub open spec fn color_at(self, x: int, y: int) -> int {
        let (odd_column, odd_row) = (x % 2 == 1, y % 2 == 1);
        match self {
            BayerPattern::Rggb => if odd_column != odd_row {
                1
            } else if odd_row {
                2
            } else {
                0
            },
            BayerPattern::Bggr => if odd_column != odd_row {
                1
            } else if odd_row {
                0
            } else {
                2
            },
            BayerPattern::Grbg => if odd_column == odd_row {
                1
            } else if odd_row {
                2
            } else {
                0
            },
            BayerPattern::Gbrg => if odd_column == odd_row {
                1
            } else if odd_row {
                0
            } else {
                2
            },
        }
    }
}

/// The column or row before `at`. Before the first one stands the second, which has its colours.
pub open spec fn previous(at: int) -> int {
    if at == 0 {
        1
    } else {
        at - 1
    }
}

/// Where the nearest neighbour finds the colour `color` for the sample in column `x` of row `y`: in
/// the sample itself, to its left, above it or above that to the left, whichever is first of the
/// colour. The result is the column and the row.
pub open spec fn nearest_site(pattern: BayerPattern, x: int, y: int, color: int) -> (int, int) {
    let (left, above) = (previous(x), previous(y));
    if pattern.color_at(x, y) == color {
        (x, y)
    } else if pattern.color_at(left, y) == color {
        (left, y)
    } else if pattern.color_at(x, above) == color {
        (x, above)
    } else {
        (left, above)
    }
}

/// A mosaic with all colours of each of its samples, one after the other.
pub open spec fn demosaiced<T>(samples: Seq<T>, width: int, pattern: BayerPattern) -> Seq<T> {
    Seq::new(
        3 * samples.len(),
        |k: int|
            {
                let (x, y) = nearest_site(pattern, k / 3 % width, k / 3 / width, k % 3);
                samples[y * width + x]
            },
    )
}

/// Demosaics eight-bit samples with `refimage::Debayer::debayer` on a `refimage::ImageOwned<u8>`
/// and `refimage::DemosaicMethod::Nearest`. It refuses a mosaic that is narrower or lower than
/// two samples, with one message. Of another it copies, for each sample, the three colours from the
/// sample itself and from its neighbours to the left and above, in the order of `nearest_site`.
#[verifier::external_body]
fn demosaic_eight(width: u16, height: u16, pattern: BayerPattern, samples: Vec<u8>) -> (rgb: Result<
    Vec<u8>,
    String,
>)
    requires
        0 < width,
        0 < height,
        samples@.len() == width * height,
        3 * (width * height) <= isize::MAX,
    ensures
        match rgb {
            Ok(rgb) => width >= 2 && height >= 2 && rgb@ == demosaiced(
                samples@,
                width as int,
                pattern,
            ),
            Err(message) => (width < 2 || height < 2) && message@ == "Wrong color resolution"@,
        },
{
    let pattern = match pattern {
        BayerPattern::Bggr => refimage::BayerPattern::Bggr,
        BayerPattern::Gbrg => refimage::BayerPattern::Gbrg,
        BayerPattern::Grbg => refimage::BayerPattern::Grbg,
        BayerPattern::Rggb => refimage::BayerPattern::Rggb,
    };
    let color = refimage::ColorSpace::Bayer(pattern);
    let mosaic = refimage::ImageOwned::from_owned(samples, width.into(), height.into(), color);
    match refimage::Debayer::debayer(&mosaic.unwrap(), refimage::DemosaicMethod::Nearest) {
        Ok(image) => Ok(image.into_vec()),
        Err(error) => Err(error.to_string()),
    }
}

/// Demosaics sixteen-bit samples with `refimage::Debayer::debayer` on a
/// `refimage::ImageOwned<u16>` and `refimage::DemosaicMethod::Nearest`. It refuses a mosaic that
/// is narrower or lower than two samples, with one message. Of another it copies, for each sample,
/// the three colours from the sample itself and from its neighbours to the left and above, in the
/// order of `nearest_site`.
#[verifier::external_body]
fn demosaic_sixteen(width: u16, height: u16, pattern: BayerPattern, samples: Vec<u16>) -> (rgb:
    Result<Vec<u16>, String>)
    requires
        0 < width,
        0 < height,
        samples@.len() == width * height,
        6 * (width * height) <= isize::MAX,
    ensures
        match rgb {
            Ok(rgb) => width >= 2 && height >= 2 && rgb@ == demosaiced(
                samples@,
                width as int,
                pattern,
            ),
            Err(message) => (width < 2 || height < 2) && message@ == "Wrong color resolution"@,
        },
{
    let pattern = match pattern {
        BayerPattern::Bggr => refimage::BayerPattern::Bggr,
        BayerPattern::Gbrg => refimage::BayerPattern::Gbrg,
        BayerPattern::Grbg => refimage::BayerPattern::Grbg,
        BayerPattern::Rggb => refimage::BayerPattern::Rggb,
    };
    let color = refimage::ColorSpace::Bayer(pattern);
    let mosaic = refimage::ImageOwned::from_owned(samples, width.into(), height.into(), color);
    match refimage::Debayer::debayer(&mosaic.unwrap(), refimage::DemosaicMethod::Nearest) {
        Ok(image) => Ok(image.into_vec()),
        Err(error) => Err(error.to_string()),
    }
}

impl Frame {
    /// Whether the frame is not empty and holds exactly the samples of its pixels.
    pub fn is_well_formed(&self) -> (ok: bool)
        ensures
            ok == self.well_formed(),
    {
        let channels: u64 = match self.color {
            FrameColor::Bayer(_) | FrameColor::Plain(PlainColor::Gray) => 1,
            FrameColor::Plain(PlainColor::Rgb) => 3,
            FrameColor::Plain(PlainColor::Custom(channels)) => channels as u64,
        };
        let count: usize = match &self.samples {
            Samples::Eight(samples) => samples.len(),
            Samples::Sixteen(samples) => samples.len(),
        };
        assert(0 <= self.width * self.height <= 0xffff * 0xffff) by (nonlinear_arith)
            requires
                self.width <= 0xffff,
                self.height <= 0xffff,
        ;
        let pixels: u64 = self.width as u64 * self.height as u64;
        assert(0 <= channels * pixels <= 255 * pixels) by (nonlinear_arith)
            requires
                channels <= 255,
                0 <= pixels,
        ;
        self.width > 0 && self.height > 0 && channels > 0 && count as u64 == channels * pixels
    }

    /// Whether the colours of a mosaic of this size can be held in memory.
    pub fn can_demosaic(&self) -> (ok: bool)
        ensures
            ok == self.fits_demosaiced(),
    {
        assert(0 <= self.width * self.height <= 0xffff * 0xffff) by (nonlinear_arith)
            requires
                self.width <= 0xffff,
                self.height <= 0xffff,
        ;
        6 * (self.width as u64 * self.height as u64) <= isize::MAX as u64
    }

    /// The frame holds a Bayer mosaic.
    pub open spec fn is_mosaic(self) -> bool {
        self.color is Bayer
    }

    /// Turns a mosaic into colours by the nearest neighbour, and leaves any other frame as it
    /// is. A mosaic that is narrower or lower than two samples is refused.
    pub fn debayer(self) -> (result: Result<Frame, String>)
        requires
            self.well_formed(),
            self.fits_demosaiced(),
        ensures
            match result {
                Ok(frame) => {
                    &&& frame.well_formed()
                    &&& !frame.is_mosaic()
                    &&& frame.width == self.width
                    &&& frame.height == self.height
                    &&& match self.color {
                        FrameColor::Bayer(pattern) => {
                            &&& self.width >= 2
                            &&& self.height >= 2
                            &&& frame.color == FrameColor::Plain(PlainColor::Rgb)
                            &&& match (self.samples, frame.samples) {
                                (Samples::Eight(mosaic), Samples::Eight(rgb)) => rgb@
                                    == demosaiced(mosaic@, self.width as int, pattern),
                                (Samples::Sixteen(mosaic), Samples::Sixteen(rgb)) => rgb@
                                    == demosaiced(mosaic@, self.width as int, pattern),
                                _ => false,
                            }
                        },
                        _ => frame == self,
                    }
                },
                Err(message) => {
                    &&& self.is_mosaic()
                    &&& self.width < 2 || self.height < 2
                    &&& message@ == "Wrong color resolution"@
                },
            },
    {
        let (width, height) = (self.width, self.height);
        let pattern = match self.color {
            FrameColor::Bayer(pattern) => pattern,
            _ => {
                return Ok(self);
            },
        };
        let samples = match self.samples {
            Samples::Eight(samples) => match demosaic_eight(width, height, pattern, samples) {
                Ok(rgb) => Samples::Eight(rgb),
                Err(message) => {
                    return Err(message);
                },
            },
            Samples::Sixteen(samples) => match demosaic_sixteen(width, height, pattern, samples) {
                Ok(rgb) => Samples::Sixteen(rgb),
                Err(message) => {
                    return Err(message);
                },
            },
        };
        Ok(Frame { width, height, color: FrameColor::Plain(PlainColor::Rgb), samples })
    }
}

/// The bytes of gray pixels as RGB: every byte three times.
pub open spec fn tripled(gray: Seq<u8>) -> Seq<u8> {
    Seq::new(3 * gray.len(), |k: int| gray[k / 3])
}

/// Sixteen-bit samples on the scale of eight bits, rounded to the nearest.
pub open spec fn narrowed(samples: Seq<u16>) -> Seq<u8> {
    samples.map_values(|sample: u16| ((sample + 128) / 257) as u8)
}

/// The message with which a frame of this colour space is refused, if it is.
pub open spec fn refusal(color: PlainColor) -> Option<Seq<char>> {
    match color {
        PlainColor::Gray | PlainColor::Rgb => None,
        PlainColor::Custom(channels) => if channels > 4 {
            Some("Too many channels"@)
        } else {
            Some("Unsupported color space"@)
        },
    }
}

/// Eight-bit samples as the bytes of RGB pixels.
pub open spec fn as_rgb8(color: PlainColor, bytes: Seq<u8>) -> Seq<u8> {
    if color is Gray {
        tripled(bytes)
    } else {
        bytes
    }
}

/// Turns eight-bit samples into an image with the `TryFrom<refimage::DynamicImageOwned>` of
/// `image::DynamicImage`. Gray samples become a gray image and RGB samples an RGB image, and the
/// samples are taken over as they are. Any other colour space is refused, with a message that depends on the number of channels.
#[verifier::external_body]
fn image_from_eight(width: u16, height: u16, color: PlainColor, samples: Vec<u8>) -> (result:
    Result<image::DynamicImage, String>)
    requires
        0 < width,
        0 < height,
        0 < FrameColor::Plain(color).channels(),
        samples@.len() == FrameColor::Plain(color).channels() * (width * height),
    ensures
        match result {
            Ok(image) => {
                &&& refusal(color) is None
                &&& dynamic_width(image) == width
                &&& dynamic_height(image) == height
                &&& dynamic_is_gray(image) == (color == PlainColor::Gray)
                &&& dynamic_eight(image) == Some(samples@)
                &&& dynamic_sixteen(image) is None
                &&& dynamic_rgb8(image) == as_rgb8(color, samples@)
            },
            Err(message) => refusal(color) == Some(message@),
        },
{
    let color = match color {
        PlainColor::Gray => refimage::ColorSpace::Gray,
        PlainColor::Rgb => refimage::ColorSpace::Rgb,
        PlainColor::Custom(channels) => refimage::ColorSpace::Custom(channels, String::new()),
    };
    let frame = refimage::ImageOwned::from_owned(samples, width.into(), height.into(), color);
    match image::DynamicImage::try_from(refimage::DynamicImageOwned::from(frame.unwrap())) {
        Ok(image) => Ok(image),
        Err(message) => Err(message.to_string()),
    }
}

/// Turns sixteen-bit samples into an image with the `TryFrom<refimage::DynamicImageOwned>` of
/// `image::DynamicImage`. Gray samples become a gray image and RGB samples an RGB image. The samples
/// are taken over with all of their bits, and as eight-bit RGB the image shows them rounded. Any other colour space is refused, with a message that depends on
/// the number of channels.
#[verifier::external_body]
fn image_from_sixteen(width: u16, height: u16, color: PlainColor, samples: Vec<u16>) -> (result:
    Result<image::DynamicImage, String>)
    requires
        0 < width,
        0 < height,
        0 < FrameColor::Plain(color).channels(),
        samples@.len() == FrameColor::Plain(color).channels() * (width * height),
    ensures
        match result {
            Ok(image) => {
                &&& refusal(color) is None
                &&& dynamic_width(image) == width
                &&& dynamic_height(image) == height
                &&& dynamic_is_gray(image) == (color == PlainColor::Gray)
                &&& dynamic_eight(image) is None
                &&& dynamic_sixteen(image) == Some(samples@)
                &&& dynamic_rgb8(image) == as_rgb8(color, narrowed(samples@))
            },
            Err(message) => refusal(color) == Some(message@),
        },
{
    let color = match color {
        PlainColor::Gray => refimage::ColorSpace::Gray,
        PlainColor::Rgb => refimage::ColorSpace::Rgb,
        PlainColor::Custom(channels) => refimage::ColorSpace::Custom(channels, String::new()),
    };
    let frame = refimage::ImageOwned::from_owned(samples, width.into(), height.into(), color);
    match image::DynamicImage::try_from(refimage::DynamicImageOwned::from(frame.unwrap())) {
        Ok(image) => Ok(image),
        Err(message) => Err(message.to_string()),
    }
}

impl Frame {
    /// What the frame shows as eight-bit RGB.
    pub open spec fn rgb8(self) -> Seq<u8> {
        let bytes = match self.samples {
            Samples::Eight(samples) => samples@,
            Samples::Sixteen(samples) => narrowed(samples@),
        };
        match self.color {
            FrameColor::Plain(color) => as_rgb8(color, bytes),
            FrameColor::Bayer(_) => bytes,
        }
    }

    /// The message with which the frame is refused, if it is. A mosaic has no picture as it is.
    pub open spec fn refusal(self) -> Option<Seq<char>> {
        match self.color {
            FrameColor::Plain(color) => refusal(color),
            FrameColor::Bayer(_) => Some("Unsupported color space"@),
        }
    }

    /// Turns the frame into an image with the same samples. Gray and RGB frames have one, and mosaics and frames of
    /// other colour spaces are refused.
    pub fn into_image(self) -> (result: Result<image::DynamicImage, String>)
        requires
            self.well_formed(),
        ensures
            match result {
                Ok(image) => {
                    &&& self.refusal() is None
                    &&& dynamic_width(image) == self.width
                    &&& dynamic_height(image) == self.height
                    &&& dynamic_is_gray(image) == (self.color == FrameColor::Plain(
                        PlainColor::Gray,
                    ))
                    &&& match self.samples {
                        Samples::Eight(samples) => dynamic_eight(image) == Some(samples@)
                            && dynamic_sixteen(image) is None,
                        Samples::Sixteen(samples) => dynamic_sixteen(image) == Some(samples@)
                            && dynamic_eight(image) is None,
                    }
                    &&& dynamic_rgb8(image) == self.rgb8()
                },
                Err(message) => self.refusal() == Some(message@),
            },
    {
        let color = match self.color {
            FrameColor::Plain(color) => color,
            FrameColor::Bayer(_) => {
                return Err("Unsupported color space".to_owned());
            },
        };
        match self.samples {
            Samples::Eight(samples) => image_from_eight(self.width, self.height, color, samples),
            Samples::Sixteen(samples) => image_from_sixteen(
                self.width,
                self.height,
                color,
                samples,
            ),
        }
    }
}

/// The samples fill the pixels exactly, so an image that is made from a frame is complete.
pub proof fn law_frame_fills_its_image(frame: Frame)
    requires
        frame.well_formed(),
        frame.refusal() is None,
    ensures
        frame.rgb8().len() == 3 * (frame.width * frame.height),
{
    let pixels = frame.width * frame.height;
    assert(pixels >= 0) by (nonlinear_arith)
        requires
            pixels == frame.width * frame.height,
    ;
    assert(1 * pixels == pixels);
    if frame.color == FrameColor::Plain(PlainColor::Gray) {
        assert(frame.samples.count() == pixels);
    } else {
        assert(frame.samples.count() == 3 * pixels);
    }
}

/// Every mosaic that can be turned into colours, and every gray or RGB frame, has a picture:
/// once demosaicing has succeeded, nothing but a custom colour space is refused.
pub proof fn law_demosaiced_frames_have_pictures(before: Frame, after: Frame)
    requires
        !(before.color matches FrameColor::Plain(PlainColor::Custom(_))),
        match before.color {
            FrameColor::Bayer(_) => after.color == FrameColor::Plain(PlainColor::Rgb),
            FrameColor::Plain(_) => after == before,
        },
    ensures
        after.refusal() is None,
{
}

/// Demosaicing takes every colour of a pixel from a sample of that colour which lies within the
/// mosaic, and leaves the sample of the pixel itself as it is.
pub proof fn law_demosaicing_copies_samples(
    pattern: BayerPattern,
    width: int,
    height: int,
    x: int,
    y: int,
    color: int,
)
    requires
        2 <= width,
        2 <= height,
        0 <= x < width,
        0 <= y < height,
        0 <= color < 3,
    ensures
        ({
            let (column, row) = nearest_site(pattern, x, y, color);
            &&& 0 <= column < width
            &&& 0 <= row < height
            &&& pattern.color_at(column, row) == color
            &&& color == pattern.color_at(x, y) ==> column == x && row == y
        }),
{
}

/// The colours of a mosaic repeat in blocks of two by two samples, which the name of the pattern
/// spells from left to right and from top to bottom.
pub proof fn law_patterns_spell_their_colors(pattern: BayerPattern, x: int, y: int)
    ensures
        pattern.color_at(x + 2, y) == pattern.color_at(x, y),
        pattern.color_at(x, y + 2) == pattern.color_at(x, y),
        ({
            let block = (
                pattern.color_at(0, 0),
                pattern.color_at(1, 0),
                pattern.color_at(0, 1),
                pattern.color_at(1, 1),
            );
            &&& pattern is Rggb ==> block == (0int, 1int, 1int, 2int)
            &&& pattern is Bggr ==> block == (2int, 1int, 1int, 0int)
            &&& pattern is Grbg ==> block == (1int, 0int, 2int, 1int)
            &&& pattern is Gbrg ==> block == (1int, 2int, 0int, 1int)
        }),
{
}

/// Only a mosaic that is narrower or lower than two samples is refused. What comes of a frame has
/// its size, and a frame that is no mosaic stays as it is. Colours have as many bits as the mosaic.
pub proof fn law_only_narrow_mosaics_are_refused(frame: Frame, result: Result<Frame, String>)
    requires
        call_ensures(Frame::debayer, (frame,), result),
    ensures
        result is Err <==> frame.color is Bayer && (frame.width < 2 || frame.height < 2),
        result matches Err(message) ==> message@ == "Wrong color resolution"@,
        result matches Ok(out) ==> {
            &&& out.width == frame.width
            &&& out.height == frame.height
            &&& frame.color is Plain ==> out == frame
            &&& frame.color is Bayer ==> out.color == FrameColor::Plain(PlainColor::Rgb)
            &&& out.samples is Eight <==> frame.samples is Eight
        },
{
}

/// Each sample of a mosaic becomes a pixel of red, green and blue. The pixel has the sample itself for
/// the colour of the sample, and for any other colour a sample of that colour from the column
/// before or the row before, or both. At the first column and row, the second stands in.
pub proof fn law_pixels_are_made_of_neighbours(
    frame: Frame,
    pattern: BayerPattern,
    result: Result<Frame, String>,
    x: int,
    y: int,
    color: int,
)
    requires
        call_ensures(Frame::debayer, (frame,), result),
        frame.color == FrameColor::Bayer(pattern),
        frame.samples.count() == frame.width * frame.height,
        result is Ok,
        0 <= x < frame.width,
        0 <= y < frame.height,
        0 <= color < 3,
    ensures
        exists|column: int, row: int|
            {
                let (from, to) = (
                    row * frame.width + column,
                    3 * (y * frame.width + x) + color,
                );
                &&& #[trigger] pattern.color_at(column, row) == color
                &&& column == x || column == x - 1 || (x == 0 && column == 1)
                &&& row == y || row == y - 1 || (y == 0 && row == 1)
                &&& color == pattern.color_at(x, y) ==> column == x && row == y
                &&& match (frame.samples, result->Ok_0.samples) {
                    (Samples::Eight(mosaic), Samples::Eight(rgb)) => rgb@[to] == mosaic@[from],
                    (Samples::Sixteen(mosaic), Samples::Sixteen(rgb)) => rgb@[to]
                        == mosaic@[from],
                    _ => false,
                }
            },
{
    let width = frame.width as int;
    let (column, row) = nearest_site(pattern, x, y, color);
    law_demosaicing_copies_samples(pattern, width, frame.height as int, x, y, color);
    let pixel = y * width + x;
    let to = 3 * pixel + color;
    assert(0 <= pixel < width * frame.height) by (nonlinear_arith)
        requires
            pixel == y * width + x,
            0 <= x < width,
            0 <= y,
            y + 1 <= frame.height,
    ;
    vstd::arithmetic::div_mod::lemma_fundamental_div_mod_converse(pixel, width, y, x);
    assert(to / 3 == pixel && to % 3 == color);
    match (frame.samples, result->Ok_0.samples) {
        (Samples::Eight(mosaic), Samples::Eight(rgb)) => {
            assert(rgb@[to] == mosaic@[row * width + column]);
        },
        (Samples::Sixteen(mosaic), Samples::Sixteen(rgb)) => {
            assert(rgb@[to] == mosaic@[row * width + column]);
        },
        _ => {},
    }
    assert(pattern.color_at(column, row) == color);
}

/// Gray and RGB frames have a picture and no others. The picture has the size of the frame, it is
/// gray if the frame is, and it holds the samples of the frame with all of their bits.
pub proof fn law_pictures_hold_the_samples(
    frame: Frame,
    result: Result<image::DynamicImage, String>,
)
    requires
        call_ensures(Frame::into_image, (frame,), result),
    ensures
        result is Ok <==> frame.color == FrameColor::Plain(PlainColor::Gray) || frame.color
            == FrameColor::Plain(PlainColor::Rgb),
        result matches Ok(image) ==> {
            &&& dynamic_width(image) == frame.width
            &&& dynamic_height(image) == frame.height
            &&& dynamic_is_gray(image) <==> frame.color == FrameColor::Plain(PlainColor::Gray)
            &&& frame.samples matches Samples::Eight(samples) ==> dynamic_eight(image) == Some(
                samples@,
            ) && dynamic_sixteen(image) is None
            &&& frame.samples matches Samples::Sixteen(samples) ==> dynamic_sixteen(image) == Some(
                samples@,
            ) && dynamic_eight(image) is None
        },
        result matches Err(message) ==> {
            let crowded = frame.color matches FrameColor::Plain(PlainColor::Custom(channels))
                && channels > 4;
            &&& crowded ==> message@ == "Too many channels"@
            &&& !crowded ==> message@ == "Unsupported color space"@
        },
{
}

/// As eight-bit RGB, a picture shows each gray sample three times and each RGB sample once, and
/// sixteen bits as the nearest of the 256 levels that lie 257 apart.
pub proof fn law_pictures_show_the_samples(
    frame: Frame,
    result: Result<image::DynamicImage, String>,
    k: int,
)
    requires
        call_ensures(Frame::into_image, (frame,), result),
        frame.well_formed(),
        result is Ok,
        0 <= k < frame.samples.count(),
    ensures
        ({
            let shown = dynamic_rgb8(result->Ok_0);
            let gray = frame.color == FrameColor::Plain(PlainColor::Gray);
            let near = |level: u8|
                match frame.samples {
                    Samples::Eight(samples) => level == samples@[k],
                    Samples::Sixteen(samples) => -257 < 2 * (257 * level - samples@[k]) < 257,
                };
            &&& shown.len() == 3 * (frame.width * frame.height)
            &&& gray ==> near(shown[3 * k]) && near(shown[3 * k + 1]) && near(shown[3 * k + 2])
            &&& !gray ==> near(shown[k])
        }),
{
    law_frame_fills_its_image(frame);
    let shown = dynamic_rgb8(result->Ok_0);
    if frame.color == FrameColor::Plain(PlainColor::Gray) {
        assert((3 * k) / 3 == k && (3 * k + 1) / 3 == k && (3 * k + 2) / 3 == k);
    }
}

/// A frame is well-formed if and only if it is not empty and holds as many samples as its pixels
/// have channels.
pub proof fn law_well_formed_frames_hold_their_pixels(frame: Frame, ok: bool)
    requires
        call_ensures(Frame::is_well_formed, (&frame,), ok),
    ensures
        ({
            let channels: int = match frame.color {
                FrameColor::Bayer(_) => 1,
                FrameColor::Plain(PlainColor::Gray) => 1,
                FrameColor::Plain(PlainColor::Rgb) => 3,
                FrameColor::Plain(PlainColor::Custom(channels)) => channels as int,
            };
            let count: int = match frame.samples {
                Samples::Eight(samples) => samples@.len() as int,
                Samples::Sixteen(samples) => samples@.len() as int,
            };
            ok <==> frame.width > 0 && frame.height > 0 && channels > 0 && count == channels * (
            frame.width * frame.height)
        }),
{
}

/// The colours of a mosaic have to fit in memory with six bytes for each sample.
pub proof fn law_colors_have_to_fit_in_memory(frame: Frame, ok: bool)
    requires
        call_ensures(Frame::can_demosaic, (&frame,), ok),
    ensures
        ok <==> 6 * (frame.width * frame.height) <= isize::MAX,
{
}

/// Every frame that is well-formed can be turned into colours, if they fit in memory, and into a
/// picture.
pub proof fn law_usual_frames_are_taken(frame: Frame, ok: bool, fits: bool)
    requires
        call_ensures(Frame::is_well_formed, (&frame,), ok),
        call_ensures(Frame::can_demosaic, (&frame,), fits),
        ok,
    ensures
        fits ==> call_requires(Frame::debayer, (frame,)),
        call_requires(Frame::into_image, (frame,)),
{
}

} // verus!
