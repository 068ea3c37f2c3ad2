//! The netpbm codec of the `image` crate, as far as this library relies on it.
//!
//! Parsing and writing the format is left to that crate. Its results come
//! back as the plain values of this module, and the three functions that call
//! it carry contracts that are believed, not proved.

use vstd::prelude::*;
use image::codecs::pnm::{PNMSubtype, PnmDecoder, SampleEncoding};
use image::{DynamicImage, ImageDecoder, ImageOutputFormat};

verus! {

/// The error type of the `image` crate. Nothing is read from it: every
/// failure to decode is a [`DecodeError::Parse`](crate::error::DecodeError).
#[verifier::external_type_specification]
#[verifier::external_body]
pub struct ExImageError(image::ImageError);

/// What the header of a portable anymap declares.
#[derive(Clone, Copy, Debug, PartialEq, Eq)]
pub struct Header {
    pub width: u32,
    pub height: u32,
    /// The largest value that a sample may take.
    pub maxval: u32,
    /// The number of bytes that one pixel takes once decoded.
    pub bytes_per_pixel: u8,
    /// Whether the source is a binary bitmap, which packs eight pixels into
    /// a byte and starts every row on a new byte.
    pub binary_bitmap: bool,
}

impl Header {
    /// The number of bytes that the decoded samples take.
    pub open spec fn raster_len(self) -> int {
        self.width * self.height * self.bytes_per_pixel
    }

    /// Whether the samples can be decoded without the decoder running over
    /// its own arithmetic, which is in 32 bits: it counts the sample bytes of
    /// every source, and it pads a row of a binary bitmap to the next
    /// multiple of eight.
    pub open spec fn decodable(self) -> bool {
        &&& self.binary_bitmap ==> self.width <= u32::MAX - 7
        &&& self.raster_len() <= u32::MAX
    }

    /// Computes [`Header::decodable`].
    pub fn is_decodable(&self) -> (fits: bool)
        ensures
            fits == self.decodable(),
    {
        if self.binary_bitmap && self.width > u32::MAX - 7 {
            return false;
        }
        let wide_width: u64 = self.width as u64;
        let wide_height: u64 = self.height as u64;
        let wide_bytes: u64 = self.bytes_per_pixel as u64;
        assert(wide_width * wide_height <= u64::MAX) by (nonlinear_arith)
            requires
                wide_width <= u32::MAX,
                wide_height <= u32::MAX,
        ;
        let pixels: u64 = wide_width * wide_height;
        match pixels.checked_mul(wide_bytes) {
            Some(total) => total <= u32::MAX as u64,
            None => false,
        }
    }
}

/// The decoded samples of an image, row by row, by the layout of a pixel.
#[derive(Clone, Debug, PartialEq, Eq)]
pub enum Raster {
    /// One byte per pixel: its brightness.
    Luma8(Vec<u8>),
    /// Three bytes per pixel: red, green, blue.
    Rgb8(Vec<u8>),
    /// Any other layout, such as samples of sixteen bits.
    Other,
}

/// The mathematical model of a [`Raster`].
pub enum RasterView {
    Luma8(Seq<u8>),
    Rgb8(Seq<u8>),
    Other,
}

impl View for Raster {
    type V = RasterView;

    open spec fn view(&self) -> RasterView {
        match *self {
            Raster::Luma8(samples) => RasterView::Luma8(samples@),
            Raster::Rgb8(samples) => RasterView::Rgb8(samples@),
            Raster::Other => RasterView::Other,
        }
    }
}

impl RasterView {
    /// Whether the raster holds exactly the samples of `width * height`
    /// pixels. Nothing is said of a raster of another layout.
    pub open spec fn fills(self, width: u32, height: u32) -> bool {
        match self {
            RasterView::Luma8(samples) => samples.len() == width * height,
            RasterView::Rgb8(samples) => samples.len() == 3 * (width * height),
            RasterView::Other => true,
        }
    }
}

/// The header that `PnmDecoder::new` reads from `bytes`, or `None` where it
/// reports an error.
pub uninterp spec fn pnm_header(bytes: Seq<u8>) -> Option<Header>;

/// The samples that `DynamicImage::from_decoder` reads from `bytes` with a
/// netpbm decoder, or `None` where it reports an error.
pub uninterp spec fn pnm_raster(bytes: Seq<u8>) -> Option<RasterView>;

/// The decimal digits of `n` in ASCII, without leading zeros.
pub open spec fn decimal(n: nat) -> Seq<u8>
    decreases n,
{
    if n < 10 {
        seq![(48 + n) as u8]
    } else {
        decimal(n / 10).push((48 + n % 10) as u8)
    }
}

/// The bytes of a binary portable pixmap: the magic number `P6`, a line
/// break, then width, height and the maximum 255 with one space between them,
/// a line break, and the samples.
pub open spec fn pixmap_bytes(width: u32, height: u32, samples: Seq<u8>) -> Seq<u8> {
    seq![0x50u8, 0x36u8, 0x0au8] + decimal(width as nat) + seq![0x20u8] + decimal(height as nat)
        + seq![0x20u8, 0x32u8, 0x35u8, 0x35u8, 0x0au8] + samples
}

/// Reads the header of a portable anymap with `PnmDecoder::new` of the
/// `image` crate, and takes from the decoder its dimensions, the byte count
/// of its colour type, the largest sample of its header and whether its
/// subtype is the binary bitmap. Believed: whether it succeeds and what it
/// returns depend on the bytes alone.
#[verifier::external_body]
pub(crate) fn parse_header(bytes: &[u8]) -> (res: Result<Header, image::ImageError>)
    ensures
        res is Ok <==> pnm_header(bytes@) is Some,
        res matches Ok(header) ==> pnm_header(bytes@) == Some(header),
{
    let decoder = PnmDecoder::new(bytes)?;
    let (width, height) = decoder.dimensions();
    let bytes_per_pixel = decoder.color_type().bytes_per_pixel();
    let binary_bitmap = matches!(decoder.subtype(), PNMSubtype::Bitmap(SampleEncoding::Binary));
    let maxval = decoder.into_inner().1.maximal_sample();
    Ok(Header { width, height, maxval, bytes_per_pixel, binary_bitmap })
}

/// Decodes a portable anymap with `DynamicImage::from_decoder` of the
/// `image` crate. The decoder panics where the samples take more bytes than
/// 32 bits count, and where the width of a binary bitmap, padded to the next
/// multiple of eight, does not fit in 32 bits; a header of either kind is
/// left out. Believed: whether it succeeds and what it returns depend on the
/// bytes alone, and the raster it returns holds one sample per channel for
/// each pixel that the header declares.
#[verifier::external_body]
pub(crate) fn decode_raster(bytes: &[u8]) -> (res: Result<Raster, image::ImageError>)
    requires
        pnm_header(bytes@) matches Some(header) && header.decodable(),
    ensures
        res is Ok <==> pnm_raster(bytes@) is Some,
        res matches Ok(raster) ==> pnm_raster(bytes@) == Some(raster@) && raster@.fills(
            pnm_header(bytes@).unwrap().width,
            pnm_header(bytes@).unwrap().height,
        ),
{
    Ok(match DynamicImage::from_decoder(PnmDecoder::new(bytes)?)? {
        DynamicImage::ImageLuma8(buffer) => Raster::Luma8(buffer.into_raw()),
        DynamicImage::ImageRgb8(buffer) => Raster::Rgb8(buffer.into_raw()),
        _ => Raster::Other,
    })
}

/// Encodes samples of three bytes per pixel as a binary portable pixmap with
/// `ImageBuffer::from_vec` and `DynamicImage::write_to` of the `image` crate.
/// Believed: the two succeed exactly where there are three samples for each
/// of `width * height` pixels, and the encoder then writes the header on two
/// lines, with the maximum 255, and the samples unchanged after it.
#[verifier::external_body]
pub(crate) fn encode_pixmap(width: u32, height: u32, samples: Vec<u8>) -> (res: Option<Vec<u8>>)
    ensures
        res is Some <==> samples@.len() == 3 * (width * height),
        res matches Some(out) ==> out@ == pixmap_bytes(width, height, samples@),
{
    let mut out = Vec::new();
    let buffer = image::RgbImage::from_vec(width, height, samples)?;
    let format = ImageOutputFormat::Pnm(PNMSubtype::Pixmap(SampleEncoding::Binary));
    DynamicImage::ImageRgb8(buffer).write_to(&mut out, format).ok()?;
    Some(out)
}

} // verus!
