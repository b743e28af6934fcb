use skycam::time::TimeSpan;

#[test]
fn spans_are_normalised() {
    assert_eq!(TimeSpan::from_secs(3), TimeSpan { secs: 3, nanos: 0 });
    assert_eq!(TimeSpan::from_millis(2_345), TimeSpan { secs: 2, nanos: 345_000_000 });
    assert_eq!(TimeSpan::from_micros(1_000_500), TimeSpan { secs: 1, nanos: 500_000 });
    assert_eq!(
        TimeSpan::from_millis(u64::MAX),
        TimeSpan { secs: u64::MAX / 1000, nanos: 615_000_000 }
    );
}

#[test]
fn spans_are_subtracted_and_compared() {
    let short = TimeSpan { secs: 1, nanos: 900_000_000 };
    let long = TimeSpan { secs: 3, nanos: 100_000_000 };
    assert_eq!(long.saturating_sub(short), TimeSpan { secs: 1, nanos: 200_000_000 });
    assert_eq!(short.saturating_sub(long), TimeSpan { secs: 0, nanos: 0 });
    assert_eq!(short.abs_diff(long), TimeSpan { secs: 1, nanos: 200_000_000 });
    assert_eq!(long.abs_diff(short), short.abs_diff(long));
    assert!(long.longer_than(short));
    assert!(!short.longer_than(long));
    assert!(!short.longer_than(short));
}
