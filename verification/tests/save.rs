use skycam::config::{
    AnyNodeName, CameraConfig, Dims, DurationStr, LogConfig, Real, ScaleAlg, ScalerConfig,
    SoftwareScalingAlg, TargetVal,
};
use skycam::save::{
    location_cards, Location, SaveAction, SaveError, SaveEvent, SaveForms, Stamp, MAX_SECOND,
    MIN_SECOND,
};
use skycam::time::TimeSpan;

fn number(value: f64) -> Real {
    Real { bits: value.to_bits() }
}

#[test]
fn names_tell_day_and_time() {
    // 2024-07-15 16:24:59.123456789
    let stamp = Stamp { second: 1_721_060_699, nanosecond: 123_456_789 };
    assert_eq!(stamp.day_dir(), "2024-07-15");
    assert_eq!(stamp.fits_name(), "16-24-59.123.fits");
    assert_eq!(stamp.png_name(), "16-24-59.123.png");
}

#[test]
fn fractions_are_cut_off() {
    let stamp = Stamp { second: 59, nanosecond: 999_999_999 };
    assert_eq!(stamp.fits_name(), "00-00-59.999.fits");
    let stamp = Stamp { second: 0, nanosecond: -1 };
    assert_eq!(stamp.day_dir(), "1969-12-31");
    assert_eq!(stamp.png_name(), "23-59-59.999.png");
    let stamp = Stamp { second: 86_400, nanosecond: 0 };
    assert_eq!(stamp.day_dir(), "1970-01-02");
    assert_eq!(stamp.png_name(), "00-00-00.000.png");
}

#[test]
fn extreme_times_have_names() {
    let stamp = Stamp { second: MAX_SECOND, nanosecond: 999_999_999 };
    assert_eq!(stamp.day_dir(), "9999-12-30");
    assert_eq!(stamp.fits_name(), "22-00-00.999.fits");
    let stamp = Stamp { second: MIN_SECOND, nanosecond: 0 };
    assert_eq!(stamp.day_dir(), "-9999-01-02");
    assert_eq!(stamp.fits_name(), "01-59-59.000.fits");
}

#[test]
fn a_day_has_one_directory() {
    let noon = Stamp { second: 43_200, nanosecond: 0 };
    for second in (0..86_400).step_by(997) {
        assert_eq!(Stamp { second, nanosecond: 5 }.day_dir(), noon.day_dir());
    }
}

#[test]
fn milliseconds_have_their_own_names() {
    let mut seen = vec![];
    for milli in 0..2_500 {
        let name = Stamp { second: 100 + milli / 1_000, nanosecond: (milli % 1_000) as i32 * 1_000_000 }
            .fits_name();
        assert!(!seen.contains(&name));
        seen.push(name);
    }
}

#[test]
fn location_is_put_on_cards() {
    let place = Location {
        latitude: number(67.8407095),
        longitude: number(20.4110155),
        altitude: number(413.4),
        altitude_msl: number(380.0),
    };
    let cards = location_cards(true, Some(place));
    let shown: Vec<_> = cards.iter().map(|card| (card.key, card.value, card.comment)).collect();
    assert_eq!(
        shown,
        [
            ("LON", number(20.4110155), "Longitude of the capture location (deg)"),
            ("LAT", number(67.8407095), "Latitude of the capture location (deg)"),
            ("ALT", number(413.4), "Altitude of the capture location (m)"),
            (
                "ALTMSL",
                number(380.0),
                "Altitude of the capture location above mean sea level (m)"
            ),
        ]
    );
    assert!(location_cards(false, Some(place)).is_empty());
    assert!(location_cards(true, None).is_empty());
}

#[test]
fn image_is_saved_in_both_forms() {
    let forms = SaveForms { fits: true, png: true };
    assert_eq!(forms.next_action(SaveEvent::Received(true)), SaveAction::FindDir);
    assert_eq!(forms.next_action(SaveEvent::DirFound(false)), SaveAction::CreateDir);
    assert_eq!(forms.next_action(SaveEvent::DirCreated(true)), SaveAction::WriteFits);
    assert_eq!(forms.next_action(SaveEvent::DirFound(true)), SaveAction::WriteFits);
    for written in [true, false] {
        assert_eq!(forms.next_action(SaveEvent::FitsWritten(written)), SaveAction::Demosaic);
    }
    assert_eq!(forms.next_action(SaveEvent::Demosaiced(true)), SaveAction::Convert);
    assert_eq!(forms.next_action(SaveEvent::Converted(true)), SaveAction::WritePng);
    for written in [true, false] {
        assert_eq!(forms.next_action(SaveEvent::PngWritten(written)), SaveAction::Receive);
    }
}

#[test]
fn forms_that_are_not_wanted_are_left_out() {
    let forms = SaveForms { fits: false, png: false };
    assert_eq!(forms.next_action(SaveEvent::DirFound(true)), SaveAction::Demosaic);
    assert_eq!(forms.next_action(SaveEvent::DirCreated(true)), SaveAction::Demosaic);
    assert_eq!(forms.next_action(SaveEvent::Demosaiced(true)), SaveAction::Receive);
}

#[test]
fn some_failures_end_the_save_loop() {
    let forms = SaveForms { fits: true, png: true };
    assert_eq!(forms.next_action(SaveEvent::Received(false)), SaveAction::Finish);
    assert_eq!(
        forms.next_action(SaveEvent::DirCreated(false)),
        SaveAction::Fail(SaveError::Directory)
    );
    assert_eq!(
        forms.next_action(SaveEvent::Converted(false)),
        SaveAction::Fail(SaveError::Conversion)
    );
    assert_eq!(forms.next_action(SaveEvent::Demosaiced(false)), SaveAction::Receive);
}

fn config(save_fits: bool, save_png: bool) -> CameraConfig {
    let second = DurationStr(TimeSpan::from_secs(1));
    let alg = ScaleAlg::Software {
        dims: Dims { width: 8, height: 8 },
        alg: SoftwareScalingAlg::Linear,
    };
    CameraConfig {
        camera: None,
        cadence: second,
        max_exposure: second,
        percentile: number(99.5),
        max_bin: 1,
        target_val: TargetVal(number(0.5)),
        target_uncertainty: TargetVal(number(0.1)),
        gain: None,
        target_temp: number(-10.0),
        save_fits,
        save_png,
        pix8b: false,
        change_roi: None,
        log: LogConfig {
            max_files: 3,
            rotation_time: second,
            temperature_period: second,
            dedup_period: second,
        },
        gps: None,
        scaler: ScalerConfig {
            crop_mode: None,
            up: AnyNodeName(alg.clone()),
            down: AnyNodeName(alg),
        },
    }
}

#[test]
fn forms_come_from_the_config() {
    assert_eq!(SaveForms::new(&config(true, false)), SaveForms { fits: true, png: false });
    assert_eq!(SaveForms::new(&config(false, true)), SaveForms { fits: false, png: true });
}
