use image::GenericImageView;
use skycam::raster::{can_resize, png_picture, Filter, RgbImage};

#[test]
fn nearest_resize_repeats_pixels() {
    let image = RgbImage { width: 2, height: 1, data: vec![1, 2, 3, 4, 5, 6] };
    let large = image.resize(4, 2, Filter::Nearest);
    assert_eq!((large.width, large.height), (4, 2));
    let row = [1, 2, 3, 1, 2, 3, 4, 5, 6, 4, 5, 6];
    assert_eq!(large.data, [row, row].concat());
}

#[test]
fn resize_to_the_same_size_is_a_copy() {
    let image = RgbImage { width: 2, height: 1, data: vec![1, 2, 3, 4, 5, 6] };
    for filter in [
        Filter::Nearest,
        Filter::Triangle,
        Filter::CatmullRom,
        Filter::Gaussian,
        Filter::Lanczos3,
    ] {
        assert_eq!(image.resize(2, 1, filter).data, image.data);
    }
}

#[test]
fn resize_of_nothing_is_black() {
    let image = RgbImage { width: 0, height: 3, data: vec![] };
    let result = image.resize(2, 2, Filter::Triangle);
    assert_eq!((result.width, result.height), (2, 2));
    assert_eq!(result.data, vec![0; 12]);
}

#[test]
fn resize_keeps_a_plain_colour_with_every_filter() {
    let image = RgbImage { width: 8, height: 6, data: [10, 20, 30].repeat(48) };
    for filter in [
        Filter::Nearest,
        Filter::Triangle,
        Filter::CatmullRom,
        Filter::Gaussian,
        Filter::Lanczos3,
    ] {
        let result = image.resize(3, 5, filter);
        assert_eq!((result.width, result.height), (3, 5));
        assert_eq!(result.data, [10, 20, 30].repeat(15));
    }
}

const SAMPLING: [Filter; 4] = [
    Filter::Triangle,
    Filter::CatmullRom,
    Filter::Gaussian,
    Filter::Lanczos3,
];

#[test]
fn nearest_neighbor_bears_any_side() {
    assert!(can_resize(1_048_577, 1, 1, 1, Filter::Nearest));
    assert!(can_resize(u32::MAX, 1, 4_000_000_000, 1, Filter::Nearest));
    assert!(can_resize(1, u32::MAX, 1, 5, Filter::Nearest));
}

#[test]
fn sampling_bears_sides_that_keep_their_precision() {
    for filter in SAMPLING {
        assert!(can_resize(u32::MAX, 1, 1_048_576, 1, filter));
        assert!(can_resize(1, 4_194_303, 1, u32::MAX, filter));
        assert!(can_resize(5_000_000, 1, 2_000_000, 1, filter));
        assert!(can_resize(1, 12_000_000, 1, 3_000_000, filter));
        assert!(can_resize(8_388_607, 2, 8_388_607, 1, filter));
        assert!(can_resize(20_000_000, 1, 20_000_000, 1, filter));
        assert!(can_resize(0, 20_000_000, 10, 20_000_001, filter));
        assert!(!can_resize(40_000_000, 1, 40_000_001, 1, filter));
        assert!(!can_resize(1, 40_000_000, 1, 40_000_001, filter));
    }
    assert!(can_resize(1, 17_000_000, 1, 17_000_001, Filter::Gaussian));
    assert!(can_resize(u32::MAX, 1, 25_165_824, 1, Filter::Gaussian));
    assert!(can_resize(8_000_000, 1, 7_999_999, 1, Filter::Triangle));
    assert!(can_resize(16_000_000, 1, 7_999_999, 1, Filter::Triangle));
    assert!(can_resize(u32::MAX, 1, 4_194_303, 1, Filter::Triangle));
    assert!(!can_resize(10_000_000, 2, 10_000_000, 1, Filter::Triangle));
    assert!(!can_resize(7_812_533, 1, 10_989_852, 1, Filter::Triangle));
}

#[test]
fn results_that_memory_cannot_hold_are_refused() {
    assert!(!can_resize(1, 1, u32::MAX, u32::MAX, Filter::Nearest));
    assert!(!can_resize(u32::MAX, 1, 1, u32::MAX, Filter::Nearest));
}

#[test]
fn long_rows_are_resized() {
    let row = RgbImage { width: 1_048_577, height: 1, data: [10, 20, 30].repeat(1_048_577) };
    for filter in SAMPLING {
        let result = row.resize(2, 1, filter);
        assert_eq!((result.width, result.height), (2, 1));
        assert_eq!(result.data, [10, 20, 30, 10, 20, 30]);
    }
    let result = row.resize(3, 1, Filter::Nearest);
    assert_eq!(result.data, [10, 20, 30].repeat(3));
}

#[test]
fn rows_of_millions_of_pixels_are_resized() {
    let row = RgbImage { width: 5_000_000, height: 1, data: [10, 20, 30].repeat(5_000_000) };
    let result = row.resize(2_000_000, 1, Filter::Triangle);
    assert_eq!(result.data.len(), 3 * 2_000_000);
    assert_eq!(result.data[3 * 1_999_999..], [10, 20, 30]);
}

#[test]
fn positions_beyond_the_last_pixel_are_weighted() {
    let row = RgbImage { width: 2_800_051, height: 1, data: [10, 20, 30].repeat(2_800_051) };
    for filter in [Filter::Triangle, Filter::CatmullRom] {
        let result = row.resize(4_000_003, 1, filter);
        assert_eq!(result.data.len(), 3 * 4_000_003);
        assert_eq!(result.data[3 * 4_000_002..], [10, 20, 30]);
    }
}

#[test]
fn dynamic_image_becomes_rgb() {
    let gray = image::GrayImage::from_raw(2, 1, vec![9, 200]).unwrap();
    let rgb = RgbImage::from_dynamic(image::DynamicImage::ImageLuma8(gray)).unwrap();
    assert_eq!((rgb.width, rgb.height), (2, 1));
    assert_eq!(rgb.data, [9, 9, 9, 200, 200, 200]);
}

#[test]
fn surplus_bytes_of_a_buffer_are_dropped() {
    let buffer = image::RgbImage::from_raw(1, 1, vec![1, 2, 3, 4, 5]).unwrap();
    let rgb = RgbImage::from_dynamic(image::DynamicImage::ImageRgb8(buffer)).unwrap();
    assert_eq!(rgb.data, [1, 2, 3]);
}

#[test]
fn png_pictures_have_one_size() {
    let image = image::RgbImage::from_raw(2, 1, vec![1, 2, 3, 4, 5, 6]).unwrap();
    let picture = png_picture(&image::DynamicImage::ImageRgb8(image)).unwrap();
    assert_eq!(picture.dimensions(), (1024, 1024));
    let picture = picture.into_rgb8();
    assert_eq!(picture.get_pixel(0, 0).0, [1, 2, 3]);
    assert_eq!(picture.get_pixel(511, 1023).0, [1, 2, 3]);
    assert_eq!(picture.get_pixel(512, 0).0, [4, 5, 6]);
}

#[test]
fn pictures_keep_their_depth_and_colour() {
    let gray = image::ImageBuffer::from_raw(2, 1, vec![300u16, 40_001]).unwrap();
    let picture = png_picture(&image::DynamicImage::ImageLuma16(gray)).unwrap();
    match picture {
        image::DynamicImage::ImageLuma16(gray) => {
            assert_eq!(gray.dimensions(), (1024, 1024));
            assert_eq!(gray.get_pixel(0, 0).0, [300]);
            assert_eq!(gray.get_pixel(1023, 1023).0, [40_001]);
        }
        other => panic!("{:?}", other.color()),
    }
    let gray = image::ImageBuffer::from_raw(1, 1, vec![7u8]).unwrap();
    let picture = png_picture(&image::DynamicImage::ImageLuma8(gray)).unwrap();
    assert_eq!(picture.color(), image::ColorType::L8);
    let rgb = image::ImageBuffer::from_raw(1, 1, vec![1u16, 2, 3]).unwrap();
    let picture = png_picture(&image::DynamicImage::ImageRgb16(rgb)).unwrap();
    assert_eq!(picture.color(), image::ColorType::Rgb16);
    assert_eq!(picture.as_rgb16().unwrap().get_pixel(5, 6).0, [1, 2, 3]);
}

#[test]
fn long_images_have_pictures() {
    let gray = image::ImageBuffer::from_raw(1, 1_048_577, vec![9u8; 1_048_577]).unwrap();
    let picture = png_picture(&image::DynamicImage::ImageLuma8(gray)).unwrap();
    assert_eq!(picture.dimensions(), (1024, 1024));
}
