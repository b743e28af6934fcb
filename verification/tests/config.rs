use skycam::config::{
    rename_from_argument, renaming_from_parsed, DurationStr, NodeEntry, NodeNameError, NodeValue,
    Range, RoiConfig, ValueError,
};
use skycam::time::TimeSpan;

fn text(text: &str) -> NodeValue {
    NodeValue::Text(text.to_string())
}

fn argument(value: NodeValue) -> NodeEntry {
    NodeEntry { name: None, value }
}

fn property(name: &str, value: NodeValue) -> NodeEntry {
    NodeEntry { name: Some(name.to_string()), value }
}

fn read(duration: &str) -> TimeSpan {
    DurationStr::from_kdl_value(&text(duration)).unwrap().0
}

fn written(span: TimeSpan) -> String {
    match DurationStr(span).to_kdl_value() {
        NodeValue::Text(text) => text,
        NodeValue::Other => panic!("no text"),
    }
}

#[test]
fn durations_are_read() {
    assert_eq!(read("5s"), TimeSpan::from_secs(5));
    assert_eq!(read("1m 30s"), TimeSpan::from_secs(90));
    assert_eq!(read("500us"), TimeSpan::from_micros(500));
    assert_eq!(read("1y"), TimeSpan::from_secs(31_556_926));
}

#[test]
fn bad_durations_are_refused() {
    assert!(matches!(
        DurationStr::from_kdl_value(&NodeValue::Other),
        Err(ValueError::NotText)
    ));
    match DurationStr::from_kdl_value(&text("5 parsecs")) {
        Err(ValueError::Custom(message)) => assert_eq!(
            message,
            "missing time duration format, must be multiples of `[0-9]+(ns|us|ms|[smhdwy])`"
        ),
        other => panic!("{other:?}"),
    }
    match DurationStr::from_kdl_value(&text("soon")) {
        Err(ValueError::Custom(message)) => {
            assert_eq!(message, "cannot parse integer from empty string")
        }
        other => panic!("{other:?}"),
    }
}

#[test]
fn parsed_durations_are_kept() {
    assert_eq!(
        DurationStr::from_parsed(Ok((3, 4))).unwrap(),
        DurationStr(TimeSpan { secs: 3, nanos: 4 })
    );
    assert!(matches!(
        DurationStr::from_parsed(Err("no".to_string())),
        Err(ValueError::Custom(message)) if message == "no"
    ));
}

#[test]
fn durations_survive_their_text() {
    assert_eq!(written(TimeSpan::from_secs(90)), "90s");
    assert_eq!(written(TimeSpan::from_secs(120)), "2m");
    assert_eq!(written(TimeSpan::from_millis(1_500)), "1500ms");
    assert_eq!(written(TimeSpan::from_secs(0)), "0y");
    assert_eq!(written(TimeSpan::from_secs(31_556_926)), "1y");
    assert_eq!(written(TimeSpan::from_secs(1_209_600)), "2w");
    assert_eq!(written(TimeSpan::from_secs(259_200)), "3d");
    assert_eq!(written(TimeSpan::from_secs(14_400)), "4h");
    assert_eq!(written(TimeSpan::from_micros(1_000_005)), "1000005us");
    assert_eq!(written(TimeSpan { secs: 0, nanos: 120_007 }), "120007ns");
    for span in [
        TimeSpan::from_secs(0),
        TimeSpan::from_secs(u64::MAX),
        TimeSpan::from_secs(86_400 * 7),
        TimeSpan::from_millis(u64::MAX),
        TimeSpan::from_micros(u64::MAX),
        TimeSpan { secs: 18_446_744_073, nanos: 709_551_615 },
    ] {
        assert_eq!(read(&written(span)), span);
    }
}

#[test]
fn too_many_nanoseconds_are_not_read_back() {
    for span in [
        TimeSpan { secs: 18_446_744_073, nanos: 709_551_616 },
        TimeSpan { secs: u64::MAX, nanos: 1_000 },
        TimeSpan { secs: u64::MAX, nanos: 1_000_000 },
    ] {
        assert!(DurationStr::from_kdl_value(&text(&written(span))).is_err());
    }
}

#[test]
fn roi_lies_between_the_ranges() {
    let config = RoiConfig { x: Range { min: 10, max: 110 }, y: Range { min: 5, max: 5 } };
    let roi = config.roi();
    assert_eq!((roi.x_min, roi.y_min, roi.width, roi.height), (10, 5, 100, 0));
}

#[test]
fn first_argument_becomes_the_name() {
    let entries = vec![
        property("alg", text("Linear")),
        argument(text("software")),
        argument(text("other")),
    ];
    let renaming = rename_from_argument(&entries).unwrap();
    assert_eq!(renaming.argument, 1);
    assert_eq!(renaming.name, "software");
}

#[test]
fn node_without_argument_has_no_name() {
    assert!(matches!(
        rename_from_argument(&vec![]),
        Err(NodeNameError::MissingArgument(0))
    ));
    assert!(matches!(
        rename_from_argument(&vec![property("a", text("b"))]),
        Err(NodeNameError::MissingArgument(0))
    ));
}

#[test]
fn argument_that_is_no_identifier_is_refused() {
    match rename_from_argument(&vec![argument(NodeValue::Other)]) {
        Err(NodeNameError::InvalidValue(message)) => assert_eq!(message, "Expected identifier"),
        other => panic!("{other:?}"),
    }
    match rename_from_argument(&vec![argument(text("a b"))]) {
        Err(NodeNameError::InvalidValue(message)) => {
            assert_eq!(message, "Failed to parse KDL document")
        }
        other => panic!("{other:?}"),
    }
}

#[test]
fn quoted_identifiers_lose_their_quotes() {
    let renaming = rename_from_argument(&vec![argument(text("\"soft\""))]).unwrap();
    assert_eq!(renaming.name, "soft");
}

#[test]
fn parsed_names_are_kept() {
    let renaming = renaming_from_parsed(4, Ok("n".to_string())).unwrap();
    assert_eq!((renaming.argument, renaming.name.as_str()), (4, "n"));
    assert!(matches!(
        renaming_from_parsed(4, Err("m".to_string())),
        Err(NodeNameError::InvalidValue(message)) if message == "m"
    ));
}
