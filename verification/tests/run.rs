use skycam::config::{
    AnyNodeName, CameraConfig, Dims, DurationStr, GpsConfig, LogConfig, Real, ScaleAlg,
    ScalerConfig, SoftwareScalingAlg, TargetVal,
};
use skycam::run::{
    after_run, monitor_action, AfterRun, ExposureSettings, MonitorAction, RunAction, RunError,
    RunEvent, RunStages, TemperatureReport,
};
use skycam::time::TimeSpan;

fn number(value: f64) -> Real {
    Real { bits: value.to_bits() }
}

fn config(max_bin: i32, gps: Option<GpsConfig>) -> CameraConfig {
    let second = DurationStr(TimeSpan::from_secs(1));
    let alg = ScaleAlg::Vpss { device: "d".to_string(), dims: Dims { width: 8, height: 8 } };
    CameraConfig {
        camera: None,
        cadence: second,
        max_exposure: DurationStr(TimeSpan::from_secs(120)),
        percentile: number(99.5),
        max_bin,
        target_val: TargetVal(number(0.5)),
        target_uncertainty: TargetVal(number(0.1)),
        gain: None,
        target_temp: number(-10.0),
        save_fits: true,
        save_png: true,
        pix8b: false,
        change_roi: None,
        log: LogConfig {
            max_files: 3,
            rotation_time: second,
            temperature_period: second,
            dedup_period: second,
        },
        gps,
        scaler: ScalerConfig {
            crop_mode: None,
            up: AnyNodeName(alg.clone()),
            down: AnyNodeName(alg),
        },
    }
}

#[test]
fn station_recovers_until_interrupted() {
    assert_eq!(after_run(true), AfterRun::Recover { delay: TimeSpan::from_secs(1) });
    assert_eq!(after_run(false), AfterRun::Exit);
}

#[test]
fn run_goes_through_its_stages() {
    let gps = GpsConfig {
        port: "dummy".to_string(),
        baud_rate: 0,
        timeout: DurationStr(TimeSpan::from_millis(50)),
    };
    let stages = RunStages::new(&config(1, Some(gps)));
    assert_eq!(stages.next_action(RunEvent::Searched { found: true }), RunAction::SetUp);
    assert_eq!(stages.next_action(RunEvent::SetUp(true)), RunAction::OpenGps);
    assert_eq!(stages.next_action(RunEvent::GpsOpened(true)), RunAction::StartMonitor);
    assert_eq!(stages.next_action(RunEvent::MonitorStarted), RunAction::ReadExposureRange);
    assert_eq!(
        stages.next_action(RunEvent::MinimumExposure(Some(TimeSpan::from_millis(1)))),
        RunAction::Capture
    );
    assert_eq!(stages.next_action(RunEvent::TaskEnded(true)), RunAction::Finish);
    let stages = RunStages::new(&config(1, None));
    assert_eq!(stages.next_action(RunEvent::SetUp(true)), RunAction::StartMonitor);
}

#[test]
fn run_fails_at_every_stage() {
    let stages = RunStages { has_gps: true };
    for (event, error) in [
        (RunEvent::SearchFailed, RunError::Driver),
        (RunEvent::SetUp(false), RunError::Setup),
        (RunEvent::GpsOpened(false), RunError::Gps),
        (RunEvent::NoExposure, RunError::NoExposureProperty),
        (RunEvent::MinimumExposure(None), RunError::NoMinimumExposure),
        (RunEvent::TaskEnded(false), RunError::Task),
    ] {
        assert_eq!(stages.next_action(event), RunAction::Fail(error));
    }
    assert_eq!(
        stages.next_action(RunEvent::Searched { found: false }),
        RunAction::ExitProcess { code: 1 }
    );
}

#[test]
fn exposure_settings_come_from_the_config() {
    let min = TimeSpan::from_micros(32);
    let settings = ExposureSettings::new(&config(4, None), min);
    assert_eq!(
        settings,
        ExposureSettings {
            percentile: number(99.5),
            target: TargetVal(number(0.5)),
            uncertainty: TargetVal(number(0.1)),
            pixel_exclusion: 100,
            min_exposure: min,
            max_exposure: TimeSpan::from_secs(120),
            max_bin: 4,
        }
    );
}

#[test]
fn largest_bin_is_cut_to_sixteen_bits() {
    for max_bin in [0, 1, -1, 65_535, 65_536, 65_537, -65_536, i32::MIN, i32::MAX] {
        let settings = ExposureSettings::new(&config(max_bin, None), TimeSpan::from_secs(0));
        assert_eq!(settings.max_bin, max_bin as u16);
    }
}

#[test]
fn untold_temperatures_have_defaults() {
    let report = TemperatureReport::new(None, None);
    assert_eq!(f64::from_bits(report.temperature.bits), -273.15);
    assert_eq!(report.cooler_power, -1);
    let report = TemperatureReport::new(Some(number(-9.5)), Some(40));
    assert_eq!(report.temperature, number(-9.5));
    assert_eq!(report.cooler_power, 40);
}

#[test]
fn monitor_ends_with_either_flag() {
    assert_eq!(monitor_action(true, true), MonitorAction::Report);
    assert_eq!(monitor_action(false, true), MonitorAction::CancelCapture);
    assert_eq!(monitor_action(true, false), MonitorAction::CancelCapture);
}

#[test]
fn runs_without_a_receiver_take_fewer_stages() {
    for (has_gps, count) in [(true, 5), (false, 4)] {
        let stages = RunStages { has_gps };
        let mut action = RunAction::Connect;
        let mut steps = 0;
        while action != RunAction::Capture {
            let event = match action {
                RunAction::Connect => RunEvent::Searched { found: true },
                RunAction::SetUp => RunEvent::SetUp(true),
                RunAction::OpenGps => RunEvent::GpsOpened(true),
                RunAction::StartMonitor => RunEvent::MonitorStarted,
                RunAction::ReadExposureRange => {
                    RunEvent::MinimumExposure(Some(TimeSpan::from_micros(10)))
                }
                other => panic!("{other:?}"),
            };
            action = stages.next_action(event);
            steps += 1;
        }
        assert_eq!(steps, count);
    }
}
