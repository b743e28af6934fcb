use skycam::config::{DurationStr, GpsConfig};
use skycam::gps::{Gps, GpsAction, GpsEvent, GpsSource, ReadEnd};
use skycam::time::TimeSpan;

fn read(end: ReadEnd, length: usize) -> GpsEvent<u32> {
    GpsEvent::Read { end, length }
}

fn config(port: &str) -> GpsConfig {
    GpsConfig {
        port: port.to_string(),
        baud_rate: 9600,
        timeout: DurationStr(TimeSpan::from_millis(50)),
    }
}

#[test]
fn port_decides_the_source() {
    let timeout = DurationStr(TimeSpan::from_millis(50));
    match GpsSource::new(config("dummy")) {
        GpsSource::Dummy { timeout: t } => assert_eq!(t, timeout),
        other => panic!("{other:?}"),
    }
    match GpsSource::new(config("Dummy")) {
        GpsSource::Serial { port, baud_rate, timeout: t } => {
            assert_eq!((port.as_str(), baud_rate, t), ("Dummy", 9600, timeout));
        }
        other => panic!("{other:?}"),
    }
}

#[test]
fn last_parsed_message_is_known() {
    let mut gps = Gps::new();
    assert_eq!(gps.action, GpsAction::CheckStop);
    assert!(gps.current_info().is_none());
    assert_eq!(gps.step(GpsEvent::StopChecked), GpsAction::Read);
    assert_eq!(gps.step(read(ReadEnd::TimedOut, 10)), GpsAction::Parse);
    assert_eq!(gps.step(GpsEvent::Parsed(Some(1))), GpsAction::CheckStop);
    assert_eq!(gps.current_info(), Some(&1));
    assert_eq!(gps.step(GpsEvent::StopChecked), GpsAction::Read);
    assert_eq!(gps.step(read(ReadEnd::TimedOut, 0)), GpsAction::CheckStop);
    assert_eq!(gps.step(GpsEvent::StopChecked), GpsAction::Read);
    assert_eq!(gps.step(read(ReadEnd::Complete, 3)), GpsAction::Parse);
    assert_eq!(gps.step(GpsEvent::Parsed(None)), GpsAction::CheckStop);
    assert_eq!(gps.current_info(), Some(&1));
    gps.step(GpsEvent::StopChecked);
    gps.step(read(ReadEnd::Complete, 3));
    gps.step(GpsEvent::Parsed(Some(2)));
    assert_eq!(gps.current_info(), Some(&2));
}

#[test]
fn failed_read_forgets_everything() {
    let mut gps = Gps::new();
    gps.step(GpsEvent::StopChecked);
    gps.step(read(ReadEnd::Complete, 3));
    gps.step(GpsEvent::Parsed(Some(2)));
    gps.step(GpsEvent::StopChecked);
    assert_eq!(gps.step(read(ReadEnd::Failed, 7)), GpsAction::Disconnect);
    assert!(gps.current_info().is_none());
}

#[test]
fn stop_before_the_first_read_reads_nothing() {
    let mut gps: Gps<u32> = Gps::new();
    gps.request_stop();
    assert_eq!(gps.action, GpsAction::CheckStop);
    assert_eq!(gps.step(GpsEvent::StopChecked), GpsAction::Exit);
    assert!(gps.current_info().is_none());
}

#[test]
fn stop_between_reads_keeps_what_is_known() {
    let mut gps = Gps::new();
    gps.step(GpsEvent::StopChecked);
    gps.step(read(ReadEnd::Complete, 3));
    gps.step(GpsEvent::Parsed(Some(4)));
    gps.request_stop();
    assert_eq!(gps.step(GpsEvent::StopChecked), GpsAction::Exit);
    assert_eq!(gps.current_info(), Some(&4));
}

#[test]
fn stop_during_a_read_lets_that_message_in() {
    let mut gps = Gps::new();
    gps.step(GpsEvent::StopChecked);
    gps.request_stop();
    assert_eq!(gps.action, GpsAction::Read);
    assert_eq!(gps.step(read(ReadEnd::Complete, 3)), GpsAction::Parse);
    assert_eq!(gps.step(GpsEvent::Parsed(Some(5))), GpsAction::CheckStop);
    assert_eq!(gps.step(GpsEvent::StopChecked), GpsAction::Exit);
    assert_eq!(gps.current_info(), Some(&5));

    let mut gps: Gps<u32> = Gps::new();
    gps.step(GpsEvent::StopChecked);
    gps.request_stop();
    assert_eq!(gps.step(read(ReadEnd::TimedOut, 0)), GpsAction::CheckStop);
    assert_eq!(gps.step(GpsEvent::StopChecked), GpsAction::Exit);
}
