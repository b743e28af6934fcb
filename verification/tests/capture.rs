use skycam::capture::{CaptureAction, CaptureEvent, CaptureLoop, Captured};
use skycam::save::Stamp;
use skycam::time::TimeSpan;

fn ms(millis: u64) -> TimeSpan {
    TimeSpan::from_millis(millis)
}

fn stamp(second: i64) -> Stamp {
    Stamp { second, nanosecond: 5 }
}

/// Goes on to a capture that starts at `started`.
fn begin(capture: &mut CaptureLoop, started: Stamp) {
    assert_eq!(capture.step(flags(true, true)), CaptureAction::NoteTime);
    assert_eq!(
        capture.step(CaptureEvent::Time(started)),
        CaptureAction::Capture { started }
    );
}

fn flags(running: bool, task_run: bool) -> CaptureEvent {
    CaptureEvent::Flags { running, task_run }
}

fn image(exposure: Option<TimeSpan>) -> CaptureEvent {
    CaptureEvent::Captured(Captured::Image { exposure })
}

#[test]
fn images_are_saved_at_the_cadence() {
    let mut capture = CaptureLoop::new(ms(1000));
    let mut saved = vec![];
    for now in (0..5000).step_by(250) {
        let started = stamp(now as i64);
        begin(&mut capture, started);
        assert_eq!(capture.step(image(None)), CaptureAction::ReadClock { started });
        match capture.step(CaptureEvent::Clock(ms(now))) {
            CaptureAction::Save { started: sent } => {
                saved.push(now);
                assert_eq!(sent, started);
                assert_eq!(
                    capture.step(CaptureEvent::HandedOver(now != 0)),
                    CaptureAction::CheckFlags
                );
            }
            action => assert_eq!(action, CaptureAction::CheckFlags),
        }
    }
    assert_eq!(saved, [0, 1250, 2500, 3750]);
}

#[test]
fn first_image_is_saved() {
    let mut capture = CaptureLoop::new(TimeSpan { secs: u64::MAX, nanos: 0 });
    begin(&mut capture, stamp(7));
    capture.step(image(None));
    assert_eq!(
        capture.step(CaptureEvent::Clock(ms(0))),
        CaptureAction::Save { started: stamp(7) }
    );
    assert_eq!(capture.last_save, Some(ms(0)));
}

#[test]
fn exposure_is_changed_beyond_the_tolerance() {
    let exposure = ms(100);
    for (optimum, changed) in [
        (TimeSpan::from_micros(100_500), false),
        (TimeSpan { secs: 0, nanos: 100_500_001 }, true),
        (TimeSpan::from_micros(99_500), false),
        (TimeSpan { secs: 0, nanos: 99_499_999 }, true),
        (ms(100), false),
    ] {
        let mut capture = CaptureLoop::new(ms(1));
        begin(&mut capture, stamp(1));
        assert_eq!(
            capture.step(image(Some(exposure))),
            CaptureAction::CalculateExposure { started: stamp(1), exposure }
        );
        let action = capture.step(CaptureEvent::Calculated(Some(optimum)));
        if changed {
            assert_eq!(action, CaptureAction::SetExposure { started: stamp(1), from: exposure, to: optimum });
            assert_eq!(
                capture.step(CaptureEvent::ExposureSet(false)),
                CaptureAction::ReadClock { started: stamp(1) }
            );
        } else {
            assert_eq!(action, CaptureAction::ReadClock { started: stamp(1) });
        }
    }
}

#[test]
fn exposure_that_cannot_be_calculated_stays() {
    let mut capture = CaptureLoop::new(ms(1));
    begin(&mut capture, stamp(1));
    capture.step(image(Some(ms(5))));
    assert_eq!(
        capture.step(CaptureEvent::Calculated(None)),
        CaptureAction::ReadClock { started: stamp(1) }
    );
}

#[test]
fn failed_captures_are_repeated() {
    for failure in [Captured::TimedOut, Captured::NotStarted, Captured::OtherError] {
        let mut capture = CaptureLoop::new(ms(1));
        begin(&mut capture, stamp(1));
        assert_eq!(
            capture.step(CaptureEvent::Captured(failure)),
            CaptureAction::CheckFlags
        );
    }
}

#[test]
fn failed_exposure_stops_all_tasks() {
    let mut capture = CaptureLoop::new(ms(1));
    begin(&mut capture, stamp(1));
    assert_eq!(
        capture.step(CaptureEvent::Captured(Captured::ExposureFailed)),
        CaptureAction::Stop { stop_tasks: true }
    );
}

#[test]
fn either_flag_stops_the_loop() {
    for (running, task_run) in [(false, true), (true, false), (false, false)] {
        let mut capture = CaptureLoop::new(ms(1));
        assert_eq!(
            capture.step(flags(running, task_run)),
            CaptureAction::Stop { stop_tasks: false }
        );
    }
}

#[test]
fn images_go_out_with_the_start_of_their_own_capture() {
    let mut capture = CaptureLoop::new(ms(1));
    begin(&mut capture, stamp(10));
    capture.step(CaptureEvent::Captured(Captured::TimedOut));
    begin(&mut capture, stamp(20));
    capture.step(image(Some(ms(100))));
    capture.step(CaptureEvent::Calculated(Some(ms(200))));
    capture.step(CaptureEvent::ExposureSet(true));
    assert_eq!(
        capture.step(CaptureEvent::Clock(ms(50))),
        CaptureAction::Save { started: stamp(20) }
    );
}
