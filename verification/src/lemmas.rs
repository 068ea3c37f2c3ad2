//! What holds between encoding and decoding.

use vstd::prelude::*;
use crate::error::DecodeError;
use crate::image::{
    averaged_pixels, gray_average, gray_samples, rgb_pixels, rgb_samples, Grid, RgbImage,
};
use crate::imgtype::{clamped, Gray, Rgb};
use crate::pnm::{pixmap_bytes, pnm_header, pnm_raster, Header, RasterView};

verus! {

/// Whether no channel of any pixel is above 255.
pub open spec fn within_byte(pixels: Seq<Rgb>) -> bool {
    forall|i: int|
        0 <= i < pixels.len() ==> (#[trigger] pixels[i]).red <= 255 && pixels[i].green <= 255
            && pixels[i].blue <= 255
}

/// Whether the decoder reads `width`, `height`, the maximum 255 and the
/// colour samples `samples` from `bytes`, as from a pixmap.
pub open spec fn reads_as_pixmap(bytes: Seq<u8>, width: u32, height: u32, samples: Seq<u8>) -> bool {
    &&& pnm_header(bytes) == Some(
        Header { width, height, maxval: 255, bytes_per_pixel: 3, binary_bitmap: false },
    )
    &&& pnm_raster(bytes) == Some(RasterView::Rgb8(samples))
}

/// A channel above 255 is encoded as the byte 255, and a channel up to 255
/// as itself.
pub proof fn lemma_clamp_saturates(value: u16)
    ensures
        value > 255 ==> clamped(value) == 255,
        value <= 255 ==> clamped(value) == value,
{
}

/// The pixel at position `i` of a colour image is encoded by the three
/// samples from position `3 * i` on: its red, green and blue channel, each
/// saturated to one byte.
pub proof fn lemma_rgb_samples_at(pixels: Seq<Rgb>, i: int)
    requires
        0 <= i < pixels.len(),
    ensures
        rgb_samples(pixels).len() == 3 * pixels.len(),
        rgb_samples(pixels)[3 * i] == clamped(pixels[i].red),
        rgb_samples(pixels)[3 * i + 1] == clamped(pixels[i].green),
        rgb_samples(pixels)[3 * i + 2] == clamped(pixels[i].blue),
{
}

/// The pixel at position `i` of a gray image is encoded by the three samples
/// from position `3 * i` on, each its brightness saturated to one byte.
pub proof fn lemma_gray_samples_at(pixels: Seq<Gray>, i: int)
    requires
        0 <= i < pixels.len(),
    ensures
        gray_samples(pixels).len() == 3 * pixels.len(),
        gray_samples(pixels)[3 * i] == clamped(pixels[i].value),
        gray_samples(pixels)[3 * i + 1] == clamped(pixels[i].value),
        gray_samples(pixels)[3 * i + 2] == clamped(pixels[i].value),
{
}

/// Reducing a colour to gray rounds the mean of its channels down: three
/// times the result is at most the sum of the channels and less than three
/// below it.
pub proof fn lemma_gray_average_rounds_down(red: u8, green: u8, blue: u8)
    ensures
        3 * gray_average(red, green, blue) <= red + green + blue < 3 * gray_average(
            red,
            green,
            blue,
        ) + 3,
        gray_average(red, green, blue) <= 255,
{
}

/// The gray pixel at position `i` of a reduced colour source is the mean,
/// rounded down, of the three samples from position `3 * i` on.
pub proof fn lemma_averaged_pixel_at(samples: Seq<u8>, i: int)
    requires
        0 <= i,
        3 * i + 2 < samples.len(),
    ensures
        i < averaged_pixels(samples).len(),
        averaged_pixels(samples)[i].value == (samples[3 * i] + samples[3 * i + 1] + samples[3 * i
            + 2]) / 3,
{
}

/// Pixels without a channel above 255 are the pixels that their own samples
/// stand for.
pub proof fn lemma_rgb_pixels_of_samples(pixels: Seq<Rgb>)
    requires
        within_byte(pixels),
    ensures
        rgb_pixels(rgb_samples(pixels)) == pixels,
{
    let samples = rgb_samples(pixels);
    assert forall|i: int| 0 <= i < pixels.len() implies rgb_pixels(samples)[i] == pixels[i] by {
        lemma_rgb_samples_at(pixels, i);
        assert(pixels[i].red <= 255);
    }
    assert(rgb_pixels(samples) =~= pixels);
}

/// Decoding the encoding of a colour image gives the image back with the
/// denominator 255, as far as this library decides it: for an image with one
/// pixel for each position, no channel above 255 and few enough samples to be
/// decoded, and under the condition that the decoder reads from the encoded
/// bytes the header and the samples that the encoder wrote.
pub proof fn lemma_rgb_read_back(image: Grid<Rgb>, bytes: Seq<u8>)
    requires
        image.wf(),
        within_byte(image.pixels),
        3 * (image.width * image.height) <= u32::MAX,
        bytes == pixmap_bytes(image.width, image.height, rgb_samples(image.pixels)),
        reads_as_pixmap(bytes, image.width, image.height, rgb_samples(image.pixels)),
    ensures
        RgbImage::decoded(pnm_header(bytes), pnm_raster(bytes)) == Ok::<Grid<Rgb>, DecodeError>(
            Grid {
                pixels: image.pixels,
                width: image.width,
                height: image.height,
                denominator: 255,
            },
        ),
{
    lemma_rgb_pixels_of_samples(image.pixels);
    let header = Header {
        width: image.width,
        height: image.height,
        maxval: 255,
        bytes_per_pixel: 3,
        binary_bitmap: false,
    };
    assert(header.raster_len() == 3 * (image.width * image.height)) by (nonlinear_arith)
        requires
            header.raster_len() == image.width * image.height * 3,
    ;
    assert(header.decodable());
}

} // verus!
