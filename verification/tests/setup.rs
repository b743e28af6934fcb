use skycam::config::{
    AnyNodeName, CameraConfig, Dims, DurationStr, LogConfig, Range, Real, Roi, RoiConfig, ScaleAlg,
    ScalerConfig, SoftwareScalingAlg, TargetVal,
};
use skycam::setup::{
    pixel_format, CameraSetup, PixelFormat, SetupAction, SetupError, SetupEvent,
};
use skycam::time::TimeSpan;

fn number(value: f64) -> Real {
    Real { bits: value.to_bits() }
}

fn config() -> CameraConfig {
    let second = DurationStr(TimeSpan::from_secs(1));
    let alg = ScaleAlg::Software {
        dims: Dims { width: 8, height: 8 },
        alg: SoftwareScalingAlg::Linear,
    };
    CameraConfig {
        camera: None,
        cadence: second,
        max_exposure: second,
        percentile: number(99.5),
        max_bin: 1,
        target_val: TargetVal(number(0.5)),
        target_uncertainty: TargetVal(number(0.1)),
        gain: Some(number(120.0)),
        target_temp: number(-10.0),
        save_fits: true,
        save_png: true,
        pix8b: false,
        change_roi: Some(RoiConfig {
            x: Range { min: 8, max: 108 },
            y: Range { min: 4, max: 54 },
        }),
        log: LogConfig {
            max_files: 3,
            rotation_time: second,
            temperature_period: second,
            dedup_period: second,
        },
        gps: None,
        scaler: ScalerConfig {
            crop_mode: None,
            up: AnyNodeName(alg.clone()),
            down: AnyNodeName(alg),
        },
    }
}

const ROI: Roi = Roi { x_min: 8, y_min: 4, width: 100, height: 50 };

#[test]
fn pixel_format_by_sensor_and_config() {
    assert_eq!(pixel_format(true, true), Some(PixelFormat::Bpp8));
    assert_eq!(pixel_format(false, true), Some(PixelFormat::Bpp8));
    assert_eq!(pixel_format(true, false), Some(PixelFormat::Bpp16));
    assert_eq!(pixel_format(false, false), None);
}

#[test]
fn setup_goes_through_all_settings() {
    let setup = CameraSetup::new(&config());
    let exposure = SetupAction::SetExposure(TimeSpan::from_millis(100));
    assert_eq!(
        setup.next_action(SetupEvent::Info { color_sensor: Some(true) }),
        SetupAction::SetPixelFormat(PixelFormat::Bpp16)
    );
    assert_eq!(
        setup.next_action(SetupEvent::PixelFormatSet(true)),
        SetupAction::SetTargetTemp(number(-10.0))
    );
    assert_eq!(setup.next_action(SetupEvent::TargetTempSet(true)), SetupAction::SetRoi(ROI));
    assert_eq!(setup.next_action(SetupEvent::TargetTempSet(false)), SetupAction::SetRoi(ROI));
    assert_eq!(setup.next_action(SetupEvent::RoiSet(true)), SetupAction::ReadRoi);
    assert_eq!(setup.next_action(SetupEvent::RoiSet(false)), exposure);
    assert_eq!(setup.next_action(SetupEvent::RoiRead(ROI)), exposure);
    assert_eq!(
        setup.next_action(SetupEvent::ExposureSet(true)),
        SetupAction::SetGain(number(120.0))
    );
    assert_eq!(setup.next_action(SetupEvent::GainSet(true)), SetupAction::Finish);
}

#[test]
fn setup_leaves_out_what_is_not_configured() {
    let mut config = config();
    config.change_roi = None;
    config.gain = None;
    let setup = CameraSetup::new(&config);
    for color_sensor in [None, Some(false)] {
        assert_eq!(
            setup.next_action(SetupEvent::Info { color_sensor }),
            SetupAction::SetTargetTemp(number(-10.0))
        );
    }
    assert_eq!(
        setup.next_action(SetupEvent::TargetTempSet(true)),
        SetupAction::SetExposure(TimeSpan::from_millis(100))
    );
    assert_eq!(setup.next_action(SetupEvent::ExposureSet(true)), SetupAction::Finish);
}

#[test]
fn setup_fails_where_it_must() {
    let setup = CameraSetup::new(&config());
    for (event, error) in [
        (SetupEvent::NoInfo, SetupError::Info),
        (SetupEvent::PixelFormatSet(false), SetupError::PixelFormat),
        (SetupEvent::ExposureSet(false), SetupError::Exposure),
        (SetupEvent::GainSet(false), SetupError::Gain),
    ] {
        assert_eq!(setup.next_action(event), SetupAction::Fail(error));
    }
}

#[test]
fn roi_that_the_camera_changed_is_noticed() {
    let setup = CameraSetup::new(&config());
    assert!(!setup.roi_differs(ROI));
    assert!(setup.roi_differs(Roi { width: 96, ..ROI }));
}

#[test]
fn bad_ranges_matter_only_when_the_roi_is_set() {
    let mut config = config();
    let ranges = RoiConfig { x: Range { min: 9, max: 8 }, y: Range { min: 0, max: 8 } };
    assert!(!ranges.is_well_formed());
    config.change_roi = Some(ranges);
    let setup = CameraSetup::new(&config);
    assert_eq!(
        setup.next_action(SetupEvent::Info { color_sensor: Some(true) }),
        SetupAction::SetPixelFormat(PixelFormat::Bpp16)
    );
    assert_eq!(
        setup.next_action(SetupEvent::PixelFormatSet(true)),
        SetupAction::SetTargetTemp(number(-10.0))
    );
}
