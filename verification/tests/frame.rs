use image::GenericImageView;
use skycam::frame::{BayerPattern, Frame, FrameColor, PlainColor, Samples};

fn mosaic(width: u16, height: u16, samples: Samples) -> Frame {
    Frame { width, height, color: FrameColor::Bayer(BayerPattern::Rggb), samples }
}

fn plain(color: PlainColor, samples: Samples) -> Frame {
    Frame { width: 2, height: 1, color: FrameColor::Plain(color), samples }
}

const RGB: [u8; 12] = [1, 2, 4, 1, 2, 4, 1, 3, 4, 1, 3, 4];

#[test]
fn eight_bit_mosaic_gets_colours() {
    let frame = mosaic(2, 2, Samples::Eight(vec![1, 2, 3, 4])).debayer().unwrap();
    assert_eq!(frame.color, FrameColor::Plain(PlainColor::Rgb));
    assert_eq!((frame.width, frame.height), (2, 2));
    match frame.samples {
        Samples::Eight(samples) => assert_eq!(samples, RGB),
        other => panic!("{other:?}"),
    }
}

#[test]
fn sixteen_bit_mosaic_gets_colours() {
    let samples = Samples::Sixteen(vec![256, 512, 768, 1024]);
    let frame = mosaic(2, 2, samples).debayer().unwrap();
    match frame.samples {
        Samples::Sixteen(samples) => {
            let expected: Vec<u16> = RGB.iter().map(|sample| *sample as u16 * 256).collect();
            assert_eq!(samples, expected);
        }
        other => panic!("{other:?}"),
    }
}

#[test]
fn patterns_tell_the_colours_apart() {
    for (pattern, first) in [
        (BayerPattern::Rggb, [1, 2, 4]),
        (BayerPattern::Bggr, [4, 2, 1]),
        (BayerPattern::Grbg, [2, 1, 3]),
        (BayerPattern::Gbrg, [3, 1, 2]),
    ] {
        let frame = Frame {
            width: 2,
            height: 2,
            color: FrameColor::Bayer(pattern),
            samples: Samples::Eight(vec![1, 2, 3, 4]),
        };
        match frame.debayer().unwrap().samples {
            Samples::Eight(samples) => assert_eq!(samples[..3], first),
            other => panic!("{other:?}"),
        }
    }
}

#[test]
fn narrow_mosaics_are_refused() {
    let message = mosaic(1, 2, Samples::Eight(vec![1, 2])).debayer().unwrap_err();
    assert_eq!(message, "Wrong color resolution");
    let message = mosaic(2, 1, Samples::Sixteen(vec![1, 2])).debayer().unwrap_err();
    assert_eq!(message, "Wrong color resolution");
}

#[test]
fn plain_frames_need_no_demosaicing() {
    let frame = plain(PlainColor::Gray, Samples::Eight(vec![1, 2])).debayer().unwrap();
    assert_eq!(frame.color, FrameColor::Plain(PlainColor::Gray));
    match frame.samples {
        Samples::Eight(samples) => assert_eq!(samples, [1, 2]),
        other => panic!("{other:?}"),
    }
}

#[test]
fn frames_become_images() {
    let gray = plain(PlainColor::Gray, Samples::Eight(vec![1, 200])).into_image().unwrap();
    assert_eq!(gray.dimensions(), (2, 1));
    assert_eq!(gray.into_rgb8().into_raw(), [1, 1, 1, 200, 200, 200]);

    let rgb = plain(PlainColor::Rgb, Samples::Eight(vec![1, 2, 3, 4, 5, 6]));
    assert_eq!(rgb.into_image().unwrap().into_rgb8().into_raw(), [1, 2, 3, 4, 5, 6]);

    let gray = plain(PlainColor::Gray, Samples::Sixteen(vec![128, 129]));
    assert_eq!(gray.into_image().unwrap().into_rgb8().into_raw(), [0, 0, 0, 1, 1, 1]);

    let rgb = plain(PlainColor::Rgb, Samples::Sixteen(vec![0, 385, 386, 65535, 65407, 65406]));
    assert_eq!(rgb.into_image().unwrap().into_rgb8().into_raw(), [0, 1, 2, 255, 255, 254]);
}

#[test]
fn all_gray_levels_are_rounded() {
    let samples: Vec<u16> = (0..=65535).collect();
    let frame = Frame {
        width: 256,
        height: 256,
        color: FrameColor::Plain(PlainColor::Gray),
        samples: Samples::Sixteen(samples),
    };
    let bytes = frame.into_image().unwrap().into_rgb8().into_raw();
    assert_eq!(bytes.len(), 3 * 65536);
    for (k, byte) in bytes.iter().enumerate() {
        assert_eq!(*byte as usize, (k / 3 + 128) / 257);
    }
}

#[test]
fn other_colour_spaces_have_no_image() {
    let message = plain(PlainColor::Custom(5), Samples::Eight(vec![0; 10])).into_image();
    assert_eq!(message.unwrap_err(), "Too many channels");
    let message = plain(PlainColor::Custom(4), Samples::Sixteen(vec![0; 8])).into_image();
    assert_eq!(message.unwrap_err(), "Unsupported color space");
    let message = mosaic(2, 2, Samples::Eight(vec![0; 4])).into_image();
    assert_eq!(message.unwrap_err(), "Unsupported color space");
}

#[test]
fn demosaiced_frames_fill_their_images() {
    let frame = mosaic(3, 2, Samples::Eight(vec![7; 6])).debayer().unwrap();
    let image = frame.into_image().unwrap();
    assert_eq!(image.dimensions(), (3, 2));
    assert_eq!(image.into_rgb8().into_raw(), vec![7; 18]);
}

#[test]
fn images_keep_the_samples_of_their_frames() {
    let gray = plain(PlainColor::Gray, Samples::Sixteen(vec![1, 40_001])).into_image().unwrap();
    assert_eq!(gray.as_luma16().unwrap().as_raw(), &[1, 40_001]);
    let rgb = plain(PlainColor::Rgb, Samples::Sixteen(vec![1, 2, 3, 400, 500, 60_000]));
    let rgb = rgb.into_image().unwrap();
    assert_eq!(rgb.as_rgb16().unwrap().as_raw(), &[1, 2, 3, 400, 500, 60_000]);
    let gray = plain(PlainColor::Gray, Samples::Eight(vec![1, 2])).into_image().unwrap();
    assert_eq!(gray.as_luma8().unwrap().as_raw(), &[1, 2]);
    let rgb = plain(PlainColor::Rgb, Samples::Eight(vec![1, 2, 3, 4, 5, 6])).into_image().unwrap();
    assert_eq!(rgb.as_rgb8().unwrap().as_raw(), &[1, 2, 3, 4, 5, 6]);
}

#[test]
fn frames_know_whether_they_are_well_formed() {
    assert!(mosaic(3, 2, Samples::Eight(vec![0; 6])).is_well_formed());
    assert!(!mosaic(3, 2, Samples::Eight(vec![0; 7])).is_well_formed());
    assert!(!mosaic(0, 2, Samples::Sixteen(vec![])).is_well_formed());
    assert!(plain(PlainColor::Rgb, Samples::Sixteen(vec![0; 6])).is_well_formed());
    assert!(plain(PlainColor::Custom(4), Samples::Eight(vec![0; 8])).is_well_formed());
    assert!(!plain(PlainColor::Custom(0), Samples::Eight(vec![])).is_well_formed());
    assert!(mosaic(3, 2, Samples::Eight(vec![0; 6])).can_demosaic());
}

/// The colour of the sample in column `x` of row `y`: 0 for red, 1 for green and 2 for blue.
fn color_at(pattern: BayerPattern, x: usize, y: usize) -> usize {
    let colors = match pattern {
        BayerPattern::Rggb => [[0, 1], [1, 2]],
        BayerPattern::Bggr => [[2, 1], [1, 0]],
        BayerPattern::Grbg => [[1, 0], [2, 1]],
        BayerPattern::Gbrg => [[1, 2], [0, 1]],
    };
    colors[y % 2][x % 2]
}

#[test]
fn colours_come_from_the_left_and_from_above() {
    let previous = |at: usize| if at == 0 { 1 } else { at - 1 };
    for pattern in [
        BayerPattern::Rggb,
        BayerPattern::Bggr,
        BayerPattern::Grbg,
        BayerPattern::Gbrg,
    ] {
        for (width, height) in [(2, 2), (3, 2), (2, 5), (7, 4), (6, 9)] {
            let samples: Vec<u16> = (0..width * height).map(|k| (k * 37 + 5) as u16).collect();
            let frame = Frame {
                width: width as u16,
                height: height as u16,
                color: FrameColor::Bayer(pattern),
                samples: Samples::Sixteen(samples.clone()),
            };
            let rgb = match frame.debayer().unwrap().samples {
                Samples::Sixteen(rgb) => rgb,
                other => panic!("{other:?}"),
            };
            assert_eq!(rgb.len(), 3 * width * height);
            for (k, value) in rgb.into_iter().enumerate() {
                let (x, y) = (k / 3 % width, k / 3 / width);
                let sites = [
                    (x, y),
                    (previous(x), y),
                    (x, previous(y)),
                    (previous(x), previous(y)),
                ];
                let (column, row) =
                    sites.into_iter().find(|s| color_at(pattern, s.0, s.1) == k % 3).unwrap();
                assert_eq!(value, samples[row * width + column]);
            }
        }
    }
}
