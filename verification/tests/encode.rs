use csc411_image::imgtype::clamp_channel;
use csc411_image::{EncodeError, Gray, GrayImage, Read, Rgb, RgbImage, Write};

fn rgb(red: u16, green: u16, blue: u16) -> Rgb {
    Rgb { red, green, blue }
}

fn expected(header: &str, samples: &[u8]) -> Vec<u8> {
    let mut bytes = header.as_bytes().to_vec();
    bytes.extend_from_slice(samples);
    bytes
}

#[test]
fn channel_up_to_255_is_unchanged() {
    assert_eq!(clamp_channel(0), 0);
    assert_eq!(clamp_channel(9), 9);
    assert_eq!(clamp_channel(254), 254);
    assert_eq!(clamp_channel(255), 255);
}

#[test]
fn channel_above_255_saturates() {
    assert_eq!(clamp_channel(256), 255);
    assert_eq!(clamp_channel(300), 255);
    assert_eq!(clamp_channel(511), 255);
    assert_eq!(clamp_channel(u16::MAX), 255);
}

#[test]
fn colour_image_is_written_as_binary_pixmap() {
    let image = RgbImage {
        pixels: vec![rgb(1, 2, 3), rgb(4, 5, 6)],
        width: 2,
        height: 1,
        denominator: 255,
    };
    assert_eq!(image.write(), Ok(expected("P6\n2 1 255\n", &[1, 2, 3, 4, 5, 6])));
}

#[test]
fn dimensions_are_written_in_decimal() {
    let image = RgbImage { pixels: vec![rgb(7, 7, 7); 120], width: 12, height: 10, denominator: 7 };
    assert_eq!(image.write(), Ok(expected("P6\n12 10 255\n", &[7; 360])));
    let image = GrayImage {
        pixels: vec![Gray { value: 1 }; 1003],
        width: 1003,
        height: 1,
        denominator: 1,
    };
    assert_eq!(image.write(), Ok(expected("P6\n1003 1 255\n", &[1; 3009])));
}

#[test]
fn each_channel_saturates_on_its_own() {
    let image = RgbImage {
        pixels: vec![rgb(256, 255, 0), rgb(9, 65535, 1000)],
        width: 1,
        height: 2,
        denominator: 65535,
    };
    assert_eq!(image.write(), Ok(expected("P6\n1 2 255\n", &[255, 255, 0, 9, 255, 255])));
}

#[test]
fn gray_image_is_written_with_three_equal_channels() {
    let image = GrayImage {
        pixels: vec![Gray { value: 0 }, Gray { value: 200 }, Gray { value: 300 }],
        width: 3,
        height: 1,
        denominator: 255,
    };
    assert_eq!(
        image.write(),
        Ok(expected("P6\n3 1 255\n", &[0, 0, 0, 200, 200, 200, 255, 255, 255]))
    );
}

#[test]
fn small_denominator_is_not_rescaled() {
    let image = GrayImage {
        pixels: vec![Gray { value: 1 }, Gray { value: 9 }],
        width: 2,
        height: 1,
        denominator: 9,
    };
    assert_eq!(image.write(), Ok(expected("P6\n2 1 255\n", &[1, 1, 1, 9, 9, 9])));
}

#[test]
fn empty_image_is_written_as_a_header() {
    let image = RgbImage { pixels: vec![], width: 0, height: 0, denominator: 255 };
    assert_eq!(image.write(), Ok(expected("P6\n0 0 255\n", &[])));
    let image = GrayImage { pixels: vec![], width: 4, height: 0, denominator: 255 };
    assert_eq!(image.write(), Ok(expected("P6\n4 0 255\n", &[])));
}

#[test]
fn too_few_pixels_are_a_buffer_size_error() {
    let image = RgbImage { pixels: vec![rgb(1, 1, 1); 3], width: 2, height: 2, denominator: 255 };
    assert_eq!(image.write(), Err(EncodeError::BufferSize));
    let image = GrayImage { pixels: vec![], width: 1, height: 1, denominator: 255 };
    assert_eq!(image.write(), Err(EncodeError::BufferSize));
}

#[test]
fn too_many_pixels_are_a_buffer_size_error() {
    let image = RgbImage { pixels: vec![rgb(1, 1, 1); 5], width: 2, height: 2, denominator: 255 };
    assert_eq!(image.write(), Err(EncodeError::BufferSize));
    let image =
        GrayImage { pixels: vec![Gray { value: 3 }; 2], width: 1, height: 1, denominator: 255 };
    assert_eq!(image.write(), Err(EncodeError::BufferSize));
    let image =
        GrayImage { pixels: vec![Gray { value: 3 }], width: 0, height: 7, denominator: 255 };
    assert_eq!(image.write(), Err(EncodeError::BufferSize));
}

#[test]
fn dimensions_whose_product_is_huge_are_a_buffer_size_error() {
    let image = RgbImage {
        pixels: vec![rgb(1, 1, 1)],
        width: u32::MAX,
        height: u32::MAX,
        denominator: 255,
    };
    assert_eq!(image.write(), Err(EncodeError::BufferSize));
    let image =
        GrayImage { pixels: vec![], width: 65536, height: 65536, denominator: 255 };
    assert_eq!(image.write(), Err(EncodeError::BufferSize));
}

#[test]
fn colour_image_within_a_byte_comes_back() {
    let image = RgbImage {
        pixels: vec![
            rgb(0, 1, 2),
            rgb(255, 254, 253),
            rgb(10, 20, 30),
            rgb(9, 9, 9),
            rgb(0, 0, 0),
            rgb(255, 255, 255),
        ],
        width: 3,
        height: 2,
        denominator: 9,
    };
    let back = RgbImage::read(&image.write().unwrap()).unwrap();
    assert_eq!(back.width, image.width);
    assert_eq!(back.height, image.height);
    assert_eq!(back.pixels, image.pixels);
    assert_eq!(back.denominator, 255);
}

#[test]
fn larger_colour_image_comes_back() {
    let pixels: Vec<Rgb> = (0..713u16 * 29).map(|i| rgb(i % 256, (i / 3) % 256, (i / 7) % 256)).collect();
    let image = RgbImage { pixels, width: 713, height: 29, denominator: 255 };
    let back = RgbImage::read(&image.write().unwrap()).unwrap();
    assert_eq!((back.width, back.height, back.denominator), (713, 29, 255));
    assert_eq!(back.pixels, image.pixels);
}

#[test]
fn channels_above_a_byte_come_back_saturated() {
    let image = RgbImage { pixels: vec![rgb(256, 1, 70)], width: 1, height: 1, denominator: 300 };
    let back = RgbImage::read(&image.write().unwrap()).unwrap();
    assert_eq!(back.pixels, vec![rgb(255, 1, 70)]);
    assert_eq!(back.denominator, 255);
}

#[test]
fn gray_image_comes_back_gray() {
    let image = GrayImage {
        pixels: vec![Gray { value: 1 }, Gray { value: 9 }, Gray { value: 255 }, Gray { value: 0 }],
        width: 2,
        height: 2,
        denominator: 9,
    };
    let bytes = image.write().unwrap();
    let back = GrayImage::read(&bytes).unwrap();
    assert_eq!(back.pixels, image.pixels);
    assert_eq!((back.width, back.height, back.denominator), (2, 2, 255));
    let colour = RgbImage::read(&bytes).unwrap();
    assert_eq!(colour.pixels, vec![rgb(1, 1, 1), rgb(9, 9, 9), rgb(255, 255, 255), rgb(0, 0, 0)]);
}

#[test]
fn writing_leaves_the_image_as_it_was() {
    let image = RgbImage { pixels: vec![rgb(300, 2, 1)], width: 1, height: 1, denominator: 7 };
    let copy = image.clone();
    let _ = image.write();
    assert_eq!(image, copy);
}

#[test]
fn widest_image_without_rows_comes_back() {
    let image = RgbImage { pixels: vec![], width: u32::MAX, height: 0, denominator: 9 };
    let bytes = image.write().unwrap();
    assert_eq!(bytes, expected("P6\n4294967295 0 255\n", &[]));
    let back = RgbImage::read(&bytes).unwrap();
    assert_eq!((back.width, back.height, back.denominator), (u32::MAX, 0, 255));
    assert!(back.pixels.is_empty());
    let image = GrayImage { pixels: vec![], width: u32::MAX - 3, height: 0, denominator: 9 };
    let back = GrayImage::read(&image.write().unwrap()).unwrap();
    assert_eq!((back.width, back.height, back.denominator), (u32::MAX - 3, 0, 255));
    assert!(back.pixels.is_empty());
}
