use skycam::mock::{
    mock_messages, next_mock_write, split_slice, write_delay, ReadTimedOut, ReadTimer,
};
use skycam::time::TimeSpan;

const NEEDLE: [u8; 8] = [1, 2, 3, 4, 5, 6, 7, 8];

fn joined(pieces: &[&[u8]]) -> Vec<u8> {
    pieces.join(&NEEDLE[..])
}

#[test]
fn split_at_every_needle() {
    let mut data = vec![9, 9];
    data.extend_from_slice(&NEEDLE);
    data.extend_from_slice(&NEEDLE);
    data.push(7);
    let pieces = split_slice(&data, NEEDLE);
    assert_eq!(pieces, [&[9, 9][..], &[], &[7]]);
    assert_eq!(joined(&pieces), data);
}

#[test]
fn split_without_needle_keeps_the_data() {
    assert_eq!(split_slice(&[1, 2, 3], NEEDLE), [&[1, 2, 3][..]]);
    assert_eq!(split_slice(&[], NEEDLE), [&[][..]]);
    assert_eq!(split_slice(&NEEDLE[..7], NEEDLE), [&NEEDLE[..7]]);
}

#[test]
fn split_takes_needles_from_the_left() {
    let pieces = split_slice(&[5; 17], [5; 8]);
    assert_eq!(pieces, [&[][..], &[], &[5]]);
}

#[test]
fn what_follows_the_last_needle_is_no_message() {
    let mut data = vec![9];
    data.extend_from_slice(&NEEDLE);
    data.push(8);
    data.extend_from_slice(&NEEDLE);
    data.extend_from_slice(&[1, 2]);
    assert_eq!(mock_messages(&data, NEEDLE), [&[9][..], &[8]]);
    assert!(mock_messages(&[1, 2], NEEDLE).is_empty());
}

#[test]
fn reads_time_out_after_the_timeout() {
    let mut timer = ReadTimer::new(TimeSpan::from_millis(100));
    assert_eq!(timer.start_read_or_timeout(TimeSpan::from_millis(10)), Ok(()));
    assert_eq!(timer.start_read_or_timeout(TimeSpan::from_millis(50)), Ok(()));
    assert_eq!(timer.start_read_or_timeout(TimeSpan::from_millis(110)), Ok(()));
    assert_eq!(
        timer.start_read_or_timeout(TimeSpan::from_micros(110_001)),
        Err(ReadTimedOut)
    );
    assert_eq!(timer.read_start, None);
    assert_eq!(timer.start_read_or_timeout(TimeSpan::from_millis(500)), Ok(()));
    assert_eq!(timer.read_start, Some(TimeSpan::from_millis(500)));
}

#[test]
fn timeouts_are_spaced() {
    let timeout = TimeSpan::from_millis(7);
    let mut timer = ReadTimer::new(timeout);
    let mut last = None;
    for millis in 0..200 {
        let now = TimeSpan::from_millis(millis);
        if timer.start_read_or_timeout(now).is_err() {
            if let Some(last) = last {
                assert!(now.saturating_sub(last).longer_than(timeout));
            }
            last = Some(now);
        }
    }
    assert!(last.is_some());
}

#[test]
fn writes_come_early_but_never_negative() {
    assert_eq!(
        write_delay(TimeSpan::from_millis(50), 20),
        TimeSpan::from_millis(30)
    );
    assert_eq!(
        write_delay(TimeSpan::from_millis(50), 63),
        TimeSpan::from_millis(0)
    );
}

#[test]
fn mock_writes_vary_in_their_range() {
    let messages: Vec<&[u8]> = vec![&[1], &[2], &[3]];
    let timeout = TimeSpan::from_millis(100);
    let mut seen = vec![];
    let mut delays = vec![];
    for _ in 0..300 {
        let write = next_mock_write(timeout, &messages);
        assert!(messages.contains(&write.message));
        assert!(!write.delay.longer_than(timeout));
        assert!(write.delay.longer_than(TimeSpan::from_millis(36)));
        assert_eq!(write.delay.nanos % 1_000_000, 0);
        if !seen.contains(&write.message) {
            seen.push(write.message);
        }
        if !delays.contains(&write.delay) {
            delays.push(write.delay);
        }
    }
    assert_eq!(seen.len(), 3);
    assert!(delays.len() > 10);
}

#[test]
fn pieces_hold_no_needle() {
    let mut data = vec![];
    for k in 0..40u8 {
        data.extend_from_slice(&NEEDLE[..(k % 9) as usize]);
        data.push(k);
    }
    data.extend_from_slice(&NEEDLE);
    let pieces = split_slice(&data, NEEDLE);
    assert!(pieces.len() > 1);
    for piece in &pieces {
        assert!(!piece.windows(8).any(|window| window == NEEDLE));
    }
    assert_eq!(joined(&pieces), data);
}
