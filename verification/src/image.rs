//! Whole images, decoded from and encoded to bytes.

use vstd::prelude::*;
use crate::error::{DecodeError, EncodeError};
use crate::imgtype::{clamp_channel, clamped, Gray, Rgb};
use crate::pnm::{
    decode_raster, encode_pixmap, parse_header, pixmap_bytes, pnm_header, pnm_raster, Header,
    Raster, RasterView,
};

verus! {

/// A struct containing a vector of RGB pixels in row-major order, a width,
/// a height and a denominator: the largest channel value that the source of
/// the image declared.
#[derive(Clone, Debug, PartialEq, Eq)]
pub struct RgbImage {
    pub pixels: Vec<Rgb>,
    pub width: u32,
    pub height: u32,
    pub denominator: u16,
}

/// A struct containing a vector of gray pixels in row-major order, a width,
/// a height and a denominator: the largest channel value that the source of
/// the image declared.
#[derive(Clone, Debug, PartialEq, Eq)]
pub struct GrayImage {
    pub pixels: Vec<Gray>,
    pub width: u32,
    pub height: u32,
    pub denominator: u16,
}

/// The mathematical model of an image: its pixels row by row, and what it
/// records beside them.
pub struct Grid<P> {
    pub pixels: Seq<P>,
    pub width: u32,
    pub height: u32,
    pub denominator: u16,
}

impl<P> Grid<P> {
    /// Whether there is one pixel for each position of the grid. The pixel at
    /// row `r` and column `c` is then `pixels[r * width + c]`.
    pub open spec fn wf(self) -> bool {
        self.pixels.len() == self.width * self.height
    }
}

impl View for RgbImage {
    type V = Grid<Rgb>;

    open spec fn view(&self) -> Grid<Rgb> {
        Grid {
            pixels: self.pixels@,
            width: self.width,
            height: self.height,
            denominator: self.denominator,
        }
    }
}

impl View for GrayImage {
    type V = Grid<Gray>;

    open spec fn view(&self) -> Grid<Gray> {
        Grid {
            pixels: self.pixels@,
            width: self.width,
            height: self.height,
            denominator: self.denominator,
        }
    }
}

/// Behavior that defines decoding an image of kind `T` from the bytes of a
/// portable anymap.
pub trait Read<T = Self> {
    fn read(bytes: &[u8]) -> Result<T, DecodeError>;
}

/// Behavior that defines encoding an image as the bytes of a binary portable
/// pixmap.
pub trait Write {
    fn write(&self) -> Result<Vec<u8>, EncodeError>;
}

/// The brightness that stands for a colour: the mean of its three channels,
/// rounded down.
pub open spec fn gray_average(red: u8, green: u8, blue: u8) -> u16 {
    ((red + green + blue) / 3) as u16
}

/// The colour pixels that samples of three bytes per pixel stand for. Samples
/// after the last whole pixel are left out.
pub open spec fn rgb_pixels(samples: Seq<u8>) -> Seq<Rgb> {
    Seq::new(
        samples.len() / 3,
        |i: int|
            Rgb {
                red: samples[3 * i] as u16,
                green: samples[3 * i + 1] as u16,
                blue: samples[3 * i + 2] as u16,
            },
    )
}

/// The gray pixels that samples of one byte per pixel stand for.
pub open spec fn luma_pixels(samples: Seq<u8>) -> Seq<Gray> {
    Seq::new(samples.len(), |i: int| Gray { value: samples[i] as u16 })
}

/// The gray pixels that colour samples are reduced to: each pixel the mean
/// of its three channels, rounded down.
pub open spec fn averaged_pixels(samples: Seq<u8>) -> Seq<Gray> {
    Seq::new(
        samples.len() / 3,
        |i: int|
            Gray { value: gray_average(samples[3 * i], samples[3 * i + 1], samples[3 * i + 2]) },
    )
}

/// The `k`-th of the three bytes that encode a pixel with the given channels.
pub open spec fn sample_of(channels: (u16, u16, u16), k: int) -> u8 {
    if k == 0 {
        clamped(channels.0)
    } else if k == 1 {
        clamped(channels.1)
    } else {
        clamped(channels.2)
    }
}

/// The samples that encode colour pixels: red, green and blue of each pixel
/// in turn, each saturated to one byte.
pub open spec fn rgb_samples(pixels: Seq<Rgb>) -> Seq<u8> {
    Seq::new(3 * pixels.len(), |i: int| sample_of(pixels[i / 3].channels(), i % 3))
}

/// The samples that encode gray pixels: the brightness of each pixel three
/// times, saturated to one byte.
pub open spec fn gray_samples(pixels: Seq<Gray>) -> Seq<u8> {
    Seq::new(3 * pixels.len(), |i: int| sample_of(pixels[i / 3].channels(), i % 3))
}

impl RgbImage {
    /// Whether there is one pixel for each position of the grid.
    pub open spec fn wf(&self) -> bool {
        self@.wf()
    }

    /// The image that a header and decoded samples give. A maximum that the
    /// denominator cannot hold is a parse error. Only samples of three bytes
    /// per pixel make a colour image.
    pub open spec fn of_raster(header: Header, raster: RasterView) -> Result<
        Grid<Rgb>,
        DecodeError,
    > {
        if header.maxval > u16::MAX {
            Err(DecodeError::Parse)
        } else {
            match raster {
                RasterView::Rgb8(samples) => Ok(
                    Grid {
                        pixels: rgb_pixels(samples),
                        width: header.width,
                        height: header.height,
                        denominator: header.maxval as u16,
                    },
                ),
                _ => Err(DecodeError::FormatMismatch),
            }
        }
    }

    /// What decoding gives, by what the decoder reads from the bytes: a parse
    /// error where it reads no header, where the header declares a grid that
    /// cannot be decoded, or where it reads no samples.
    pub open spec fn decoded(header: Option<Header>, raster: Option<RasterView>) -> Result<
        Grid<Rgb>,
        DecodeError,
    > {
        match (header, raster) {
            (Some(h), Some(r)) if h.decodable() => Self::of_raster(h, r),
            _ => Err(DecodeError::Parse),
        }
    }

    /// Builds the image that a header and decoded samples give.
    pub fn from_raster(header: &Header, raster: Raster) -> (res: Result<RgbImage, DecodeError>)
        ensures
            match res {
                Ok(image) => Self::of_raster(*header, raster@) == Ok::<Grid<Rgb>, DecodeError>(
                    image@,
                ),
                Err(e) => Self::of_raster(*header, raster@) == Err::<Grid<Rgb>, DecodeError>(e),
            },
            res matches Ok(image) ==> (raster@.fills(header.width, header.height)
                ==> image.wf()),
    {
        if header.maxval > 0xFFFF {
            return Err(DecodeError::Parse);
        }
        match raster {
            Raster::Rgb8(samples) => {
                let len: usize = samples.len();
                let count: usize = len / 3;
                let mut pixels: Vec<Rgb> = Vec::new();
                let mut i: usize = 0;
                while i < count
                    invariant
                        len == samples@.len(),
                        3 * count <= len,
                        i <= count,
                        pixels@.len() == i,
                        forall|j: int| 0 <= j < i ==> pixels@[j] == rgb_pixels(samples@)[j],
                    decreases count - i,
                {
                    let pixel = Rgb {
                        red: samples[3 * i] as u16,
                        green: samples[3 * i + 1] as u16,
                        blue: samples[3 * i + 2] as u16,
                    };
                    pixels.push(pixel);
                    i += 1;
                }
                assert(pixels@ =~= rgb_pixels(samples@));
                Ok(
                    RgbImage {
                        pixels,
                        width: header.width,
                        height: header.height,
                        denominator: header.maxval as u16,
                    },
                )
            },
            _ => Err(DecodeError::FormatMismatch),
        }
    }
}

impl Read for RgbImage {
    /// Decodes a colour image from the bytes of a portable anymap: the whole
    /// image or an error, never a part. A source of another layout than three
    /// bytes per pixel is a format mismatch. A source that cannot be read is
    /// a parse error, and so is one whose header declares more samples than
    /// 32 bits count, a maximum above 65535, or, in a binary bitmap, a width
    /// within seven of the largest. The denominator is the header's maximum.
    fn read(bytes: &[u8]) -> (res: Result<RgbImage, DecodeError>)
        ensures
            match res {
                Ok(image) => Self::decoded(pnm_header(bytes@), pnm_raster(bytes@)) == Ok::<
                    Grid<Rgb>,
                    DecodeError,
                >(image@) && image.wf(),
                Err(e) => Self::decoded(pnm_header(bytes@), pnm_raster(bytes@)) == Err::<
                    Grid<Rgb>,
                    DecodeError,
                >(e),
            },
    {
        let header = match parse_header(bytes) {
            Ok(header) => header,
            Err(_) => {
                return Err(DecodeError::Parse);
            },
        };
        if !header.is_decodable() {
            return Err(DecodeError::Parse);
        }
        match decode_raster(bytes) {
            Ok(raster) => RgbImage::from_raster(&header, raster),
            Err(_) => Err(DecodeError::Parse),
        }
    }
}

/// Lays colour pixels out as samples, each channel saturated to one byte.
fn pack_rgb(pixels: &Vec<Rgb>) -> (samples: Vec<u8>)
    ensures
        samples@ == rgb_samples(pixels@),
{
    let len: usize = pixels.len();
    let mut samples: Vec<u8> = Vec::new();
    let mut i: usize = 0;
    while i < len
        invariant
            len == pixels@.len(),
            i <= len,
            samples@.len() == 3 * i,
            forall|j: int| 0 <= j < 3 * i ==> samples@[j] == rgb_samples(pixels@)[j],
        decreases len - i,
    {
        let pixel = pixels[i];
        samples.push(clamp_channel(pixel.red));
        samples.push(clamp_channel(pixel.green));
        samples.push(clamp_channel(pixel.blue));
        i += 1;
    }
    assert(samples@ =~= rgb_samples(pixels@));
    samples
}

/// Lays gray pixels out as samples of three channels, each the brightness
/// saturated to one byte.
fn pack_gray(pixels: &Vec<Gray>) -> (samples: Vec<u8>)
    ensures
        samples@ == gray_samples(pixels@),
{
    let len: usize = pixels.len();
    let mut samples: Vec<u8> = Vec::new();
    let mut i: usize = 0;
    while i < len
        invariant
            len == pixels@.len(),
            i <= len,
            samples@.len() == 3 * i,
            forall|j: int| 0 <= j < 3 * i ==> samples@[j] == gray_samples(pixels@)[j],
        decreases len - i,
    {
        let byte = clamp_channel(pixels[i].value);
        samples.push(byte);
        samples.push(byte);
        samples.push(byte);
        i += 1;
    }
    assert(samples@ =~= gray_samples(pixels@));
    samples
}

/// Whether `count` is the product of `width` and `height`.
fn is_area(count: usize, width: u32, height: u32) -> (same: bool)
    ensures
        same == (count == width * height),
{
    let wide_width: u64 = width as u64;
    let wide_height: u64 = height as u64;
    assert(wide_width * wide_height <= u64::MAX) by (nonlinear_arith)
        requires
            wide_width <= u32::MAX,
            wide_height <= u32::MAX,
    ;
    count as u64 == wide_width * wide_height
}

impl Write for RgbImage {
    /// Encodes the image as a binary portable pixmap with the maximum 255,
    /// whatever its denominator. Channels above 255 are written as 255. An
    /// image that does not hold `width * height` pixels is not encoded.
    fn write(&self) -> (res: Result<Vec<u8>, EncodeError>)
        ensures
            self.wf() ==> (res matches Ok(out) && out@ == pixmap_bytes(
                self.width,
                self.height,
                rgb_samples(self.pixels@),
            )),
            !self.wf() ==> res == Err::<Vec<u8>, EncodeError>(EncodeError::BufferSize),
    {
        if !is_area(self.pixels.len(), self.width, self.height) {
            return Err(EncodeError::BufferSize);
        }
        let samples = pack_rgb(&self.pixels);
        match encode_pixmap(self.width, self.height, samples) {
            Some(out) => Ok(out),
            None => Err(EncodeError::BufferSize),
        }
    }
}

impl GrayImage {
    /// Whether there is one pixel for each position of the grid.
    pub open spec fn wf(&self) -> bool {
        self@.wf()
    }

    /// The image that a header and decoded samples give. A maximum that the
    /// denominator cannot hold is a parse error. Samples of one byte per
    /// pixel are taken as they are; colour samples are reduced to the mean of
    /// the three channels, rounded down.
    pub open spec fn of_raster(header: Header, raster: RasterView) -> Result<
        Grid<Gray>,
        DecodeError,
    > {
        if header.maxval > u16::MAX {
            Err(DecodeError::Parse)
        } else {
            match raster {
                RasterView::Luma8(samples) => Ok(
                    Grid {
                        pixels: luma_pixels(samples),
                        width: header.width,
                        height: header.height,
                        denominator: header.maxval as u16,
                    },
                ),
                RasterView::Rgb8(samples) => Ok(
                    Grid {
                        pixels: averaged_pixels(samples),
                        width: header.width,
                        height: header.height,
                        denominator: header.maxval as u16,
                    },
                ),
                RasterView::Other => Err(DecodeError::FormatMismatch),
            }
        }
    }

    /// What decoding gives, by what the decoder reads from the bytes: a parse
    /// error where it reads no header, where the header declares a grid that
    /// cannot be decoded, or where it reads no samples.
    pub open spec fn decoded(header: Option<Header>, raster: Option<RasterView>) -> Result<
        Grid<Gray>,
        DecodeError,
    > {
        match (header, raster) {
            (Some(h), Some(r)) if h.decodable() => Self::of_raster(h, r),
            _ => Err(DecodeError::Parse),
        }
    }

    /// Builds the image that a header and decoded samples give.
    pub fn from_raster(header: &Header, raster: Raster) -> (res: Result<GrayImage, DecodeError>)
        ensures
            match res {
                Ok(image) => Self::of_raster(*header, raster@) == Ok::<Grid<Gray>, DecodeError>(
                    image@,
                ),
                Err(e) => Self::of_raster(*header, raster@) == Err::<Grid<Gray>, DecodeError>(e),
            },
            res matches Ok(image) ==> (raster@.fills(header.width, header.height)
                ==> image.wf()),
    {
        if header.maxval > 0xFFFF {
            return Err(DecodeError::Parse);
        }
        let mut pixels: Vec<Gray> = Vec::new();
        match raster {
            Raster::Luma8(samples) => {
                let len: usize = samples.len();
                let mut i: usize = 0;
                while i < len
                    invariant
                        len == samples@.len(),
                        i <= len,
                        pixels@.len() == i,
                        forall|j: int| 0 <= j < i ==> pixels@[j] == luma_pixels(samples@)[j],
                    decreases len - i,
                {
                    pixels.push(Gray { value: samples[i] as u16 });
                    i += 1;
                }
                assert(pixels@ =~= luma_pixels(samples@));
            },
            Raster::Rgb8(samples) => {
                let len: usize = samples.len();
                let count: usize = len / 3;
                let mut i: usize = 0;
                while i < count
                    invariant
                        len == samples@.len(),
                        3 * count <= len,
                        i <= count,
                        pixels@.len() == i,
                        forall|j: int| 0 <= j < i ==> pixels@[j] == averaged_pixels(samples@)[j],
                    decreases count - i,
                {
                    let red: u16 = samples[3 * i] as u16;
                    let green: u16 = samples[3 * i + 1] as u16;
                    let blue: u16 = samples[3 * i + 2] as u16;
                    pixels.push(Gray { value: (red + green + blue) / 3 });
                    i += 1;
                }
                assert(pixels@ =~= averaged_pixels(samples@));
            },
            Raster::Other => {
                return Err(DecodeError::FormatMismatch);
            },
        }
        Ok(
            GrayImage {
                pixels,
                width: header.width,
                height: header.height,
                denominator: header.maxval as u16,
            },
        )
    }
}

impl Read for GrayImage {
    /// Decodes a gray image from the bytes of a portable anymap: the whole
    /// image or an error, never a part. A colour source is reduced to gray; a
    /// source of yet another layout is a format mismatch. A source that
    /// cannot be read is a parse error, and so is one whose header declares
    /// more samples than 32 bits count, a maximum above 65535, or, in a
    /// binary bitmap, a width within seven of the largest. The denominator is
    /// the header's maximum.
    fn read(bytes: &[u8]) -> (res: Result<GrayImage, DecodeError>)
        ensures
            match res {
                Ok(image) => Self::decoded(pnm_header(bytes@), pnm_raster(bytes@)) == Ok::<
                    Grid<Gray>,
                    DecodeError,
                >(image@) && image.wf(),
                Err(e) => Self::decoded(pnm_header(bytes@), pnm_raster(bytes@)) == Err::<
                    Grid<Gray>,
                    DecodeError,
                >(e),
            },
    {
        let header = match parse_header(bytes) {
            Ok(header) => header,
            Err(_) => {
                return Err(DecodeError::Parse);
            },
        };
        if !header.is_decodable() {
            return Err(DecodeError::Parse);
        }
        match decode_raster(bytes) {
            Ok(raster) => GrayImage::from_raster(&header, raster),
            Err(_) => Err(DecodeError::Parse),
        }
    }
}

impl Write for GrayImage {
    /// Encodes the image as a binary portable pixmap with the maximum 255,
    /// whatever its denominator: a colour output in which each pixel has its
    /// brightness on all three channels. Values above 255 are written as 255.
    /// An image that does not hold `width * height` pixels is not encoded.
    fn write(&self) -> (res: Result<Vec<u8>, EncodeError>)
        ensures
            self.wf() ==> (res matches Ok(out) && out@ == pixmap_bytes(
                self.width,
                self.height,
                gray_samples(self.pixels@),
            )),
            !self.wf() ==> res == Err::<Vec<u8>, EncodeError>(EncodeError::BufferSize),
    {
        if !is_area(self.pixels.len(), self.width, self.height) {
            return Err(EncodeError::BufferSize);
        }
        let samples = pack_gray(&self.pixels);
        match encode_pixmap(self.width, self.height, samples) {
            Some(out) => Ok(out),
            None => Err(EncodeError::BufferSize),
        }
    }
}

} // verus!
