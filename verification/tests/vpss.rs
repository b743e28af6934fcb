use skycam::config::{AnyNodeName, Dims, ScaleDims, VpssScaling};
use skycam::raster::RgbImage;
use skycam::vpss::{FrameAction, FrameConfig, FrameError, FrameOverflow, VpssBatch, VpssScaler};

const BYTES: u32 = 3;

fn scaling(dims: ScaleDims, nn: bool) -> VpssScaling {
    VpssScaling { device: "/dev/vpss".to_string(), dims: AnyNodeName(dims), nn }
}

fn absolute(width: u32, height: u32) -> ScaleDims {
    ScaleDims::Absolute(Dims { width, height })
}

fn config(width: u16, height: u16) -> FrameConfig {
    FrameConfig { width, height }
}

/// Runs a frame through the pipeline without a failure and tells what was done.
fn run(scaler: &mut VpssScaler, width: u32, height: u32) -> Vec<FrameAction> {
    let mut done = vec![];
    let mut action = scaler.begin_frame(width, height, BYTES);
    while !matches!(action, FrameAction::Finish | FrameAction::Fail(_)) {
        done.push(action);
        action = scaler.next_action(action, true, width, height);
    }
    done.push(action);
    done
}

#[test]
fn pipeline_is_set_up_for_the_first_frame() {
    let mut scaler = VpssScaler::new(
        &scaling(absolute(10, 20), false),
        &Some(scaling(ScaleDims::Input, true)),
    );
    assert_eq!(
        run(&mut scaler, 64, 48),
        [
            FrameAction::MakeGeometry { line_bytes: 192, lines: 48 },
            FrameAction::SetGeometry,
            FrameAction::ConfigureDown {
                input: config(64, 48),
                output: config(10, 20),
                nn: false
            },
            FrameAction::ConfigureUp {
                input: config(10, 20),
                output: config(64, 48),
                nn: true
            },
            FrameAction::WriteFrame,
            FrameAction::ReadFrame,
            FrameAction::Finish,
        ]
    );
    assert_eq!(scaler.input_config, Some(config(64, 48)));
    assert_eq!(scaler.output_dims(64, 48), (64, 48));
}

#[test]
fn pipeline_stays_set_up_for_the_next_frame() {
    let mut scaler = VpssScaler::new(&scaling(absolute(10, 20), false), &None);
    assert_eq!(run(&mut scaler, 64, 48).len(), 6);
    let transfer = [FrameAction::WriteFrame, FrameAction::ReadFrame, FrameAction::Finish];
    assert_eq!(run(&mut scaler, 64, 48), transfer);
    assert_eq!(scaler.input_config, Some(config(64, 48)));
    assert_eq!(run(&mut scaler, 64, 48), transfer);
}

#[test]
fn pipeline_follows_the_size_of_the_frames() {
    let mut scaler = VpssScaler::new(&scaling(absolute(10, 20), false), &None);
    for (width, height) in [(100, 100), (100, 200), (300, 200), (63, 47)] {
        let done = run(&mut scaler, width, height);
        assert_eq!(done.len(), 6);
        assert_eq!(done[0], FrameAction::MakeGeometry { line_bytes: 3 * width, lines: height });
        assert_eq!(scaler.input_config, Some(config(width as u16, height as u16)));
        assert_eq!(scaler.output_dims(width, height), (10, 20));
    }
}

#[test]
fn failures_have_their_errors() {
    let mut scaler = VpssScaler::new(
        &scaling(absolute(10, 20), false),
        &Some(scaling(ScaleDims::Input, true)),
    );
    let errors = [
        FrameError::Geometry,
        FrameError::SetGeometry,
        FrameError::Downscaler,
        FrameError::Upscaler,
        FrameError::Write,
        FrameError::Read,
    ];
    for (step, error) in errors.into_iter().enumerate() {
        scaler.input_config = None;
        let mut action = scaler.begin_frame(8, 8, BYTES);
        for _ in 0..step {
            action = scaler.next_action(action, true, 8, 8);
        }
        assert_eq!(scaler.next_action(action, false, 8, 8), FrameAction::Fail(error));
        assert_eq!(scaler.input_config.is_some(), step >= 4);
    }
}

#[test]
fn large_images_overflow() {
    let mut scaler = VpssScaler::new(&scaling(absolute(10, 20), false), &None);
    assert_eq!(
        run(&mut scaler, 65_536, 1).last(),
        Some(&FrameAction::Fail(FrameError::InputOverflow(FrameOverflow::Width)))
    );
    assert_eq!(
        run(&mut scaler, 1, 65_536).last(),
        Some(&FrameAction::Fail(FrameError::InputOverflow(FrameOverflow::Height)))
    );
    let mut scaler = VpssScaler::new(&scaling(absolute(70_000, 1), false), &None);
    assert_eq!(
        run(&mut scaler, 1, 1).last(),
        Some(&FrameAction::Fail(FrameError::OutputOverflow(FrameOverflow::Width)))
    );
    let mut scaler = VpssScaler::new(
        &scaling(ScaleDims::Input, false),
        &Some(scaling(absolute(1, 70_000), false)),
    );
    assert_eq!(
        run(&mut scaler, 1, 1),
        [
            FrameAction::MakeGeometry { line_bytes: 3, lines: 1 },
            FrameAction::SetGeometry,
            FrameAction::Fail(FrameError::OutputOverflow(FrameOverflow::Height)),
        ]
    );
    assert_eq!(scaler.input_config, None);
}

#[test]
fn buffer_of_the_image_is_used_again() {
    let image = RgbImage { width: 1, height: 2, data: vec![1, 2, 3, 4, 5, 6] };
    let scaler = VpssScaler::new(&scaling(absolute(1, 1), false), &None);
    assert_eq!(scaler.frame_buffer(image.clone()), [1, 2, 3]);
    let scaler = VpssScaler::new(&scaling(absolute(1, 3), false), &None);
    let buffer = scaler.frame_buffer(image);
    assert_eq!(buffer, [1, 2, 3, 4, 5, 6, 0, 0, 0]);
    let result = RgbImage::from_raw(1, 3, buffer);
    assert_eq!((result.width, result.height, result.data.len()), (1, 3, 9));
}

#[test]
fn batch_is_scaled_in_order() {
    let scaler = VpssScaler::new(&scaling(ScaleDims::Input, false), &None);
    let images = vec![
        RgbImage { width: 1, height: 1, data: vec![1, 2, 3] },
        RgbImage { width: 2, height: 1, data: vec![4, 5, 6, 7, 8, 9] },
        RgbImage { width: 3, height: 2, data: vec![0; 18] },
    ];
    let mut batch = VpssBatch::new(scaler, images, BYTES);
    let mut geometries = 0;
    let mut device = vec![];
    while batch.action != FrameAction::Finish {
        match batch.action {
            FrameAction::MakeGeometry { .. } => {
                geometries += 1;
                batch.step(true);
            }
            FrameAction::WriteFrame => {
                device = batch.waiting.last().unwrap().data.iter().map(|b| b + 1).collect();
                batch.step(true);
            }
            FrameAction::ReadFrame => {
                let mut buffer = batch.read_buffer();
                buffer.copy_from_slice(&device);
                batch.read_done(buffer, BYTES);
            }
            _ => {
                batch.step(true);
            }
        }
    }
    assert_eq!(geometries, 3);
    let sizes: Vec<_> = batch.results.iter().map(|r| (r.width, r.height)).collect();
    assert_eq!(sizes, [(1, 1), (2, 1), (3, 2)]);
    assert_eq!(batch.results[0].data, [2, 3, 4]);
    assert_eq!(batch.results[1].data, [5, 6, 7, 8, 9, 10]);
}

#[test]
fn failed_read_fails_the_batch() {
    let scaler = VpssScaler::new(&scaling(ScaleDims::Input, false), &None);
    let images = vec![RgbImage { width: 1, height: 1, data: vec![1, 2, 3] }];
    let mut batch = VpssBatch::new(scaler, images, BYTES);
    while batch.action != FrameAction::ReadFrame {
        batch.step(true);
    }
    let buffer = batch.read_buffer();
    assert_eq!(buffer, [1, 2, 3]);
    assert_eq!(batch.step(false), FrameAction::Fail(FrameError::Read));
    assert!(batch.results.is_empty());
}

#[test]
fn empty_batch_is_finished() {
    let scaler = VpssScaler::new(&scaling(ScaleDims::Input, false), &None);
    let batch = VpssBatch::new(scaler, vec![], BYTES);
    assert_eq!(batch.action, FrameAction::Finish);
    assert!(batch.results.is_empty());
}

#[test]
fn a_large_image_does_not_stop_those_before_it() {
    let scaler = VpssScaler::new(&scaling(absolute(1, 1), false), &None);
    let images = vec![
        RgbImage { width: 1, height: 1, data: vec![1, 2, 3] },
        RgbImage { width: 2_000_000_000, height: 0, data: vec![] },
    ];
    let mut batch = VpssBatch::new(scaler, images, BYTES);
    while batch.action != FrameAction::ReadFrame {
        batch.step(true);
    }
    assert!(batch.frame_can_be_read());
    assert_eq!(batch.read_buffer(), [1, 2, 3]);
    assert_eq!(batch.waiting.len(), 2);
    assert!(!batch.next_can_begin(BYTES));
    assert!(batch.next_can_begin(2));
}

#[test]
fn large_frames_cannot_be_read() {
    let mut scaler = VpssScaler::new(&scaling(absolute(65_535, 65_535), false), &None);
    let image = RgbImage { width: 2_000_000_000, height: 0, data: vec![] };
    assert!(!scaler.image_can_begin(&image, BYTES));
    assert!(scaler.image_can_begin(&image, 2));
    let image = RgbImage { width: 40_000, height: 0, data: vec![] };
    assert!(!scaler.image_can_begin(&image, 200_000));
    scaler.input_config = Some(config(40_000, 0));
    assert!(scaler.image_can_begin(&image, 200_000));
    let batch = VpssBatch::new(scaler, vec![image], BYTES);
    assert!(!batch.frame_can_be_read());
}
