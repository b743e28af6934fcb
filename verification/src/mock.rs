//! A stand-in for a serial GPS receiver: recorded messages, read timeouts and the random
//! schedule on which messages are written.
use vstd::prelude::*;
use vstd::slice::slice_subrange;

use crate::time::{TimeSpan, NANOS_PER_MILLI};

verus! {

/// The bytes of `needle` stand in `data` from position `p` on.
pub open spec fn occurs_at(data: Seq<u8>, needle: Seq<u8>, p: int) -> bool {
    &&& 0 <= p
    &&& p + needle.len() <= data.len()
    &&& data.subrange(p, p + needle.len()) == needle
}

/// Position `p` is the leftmost at which `needle` stands in `data`.
pub open spec fn first_at(data: Seq<u8>, needle: Seq<u8>, p: int) -> bool {
    &&& occurs_at(data, needle, p)
    &&& forall|q: int| 0 <= q < p ==> !#[trigger] occurs_at(data, needle, q)
}

/// The pieces of `data` between the occurrences of `needle`, which are looked for from the
/// left and do not overlap.
pub open spec fn split(data: Seq<u8>, needle: Seq<u8>) -> Seq<Seq<u8>>
    decreases data.len(),
{
    if needle.len() > 0 && exists|p: int| first_at(data, needle, p) {
        let p = choose|p: int| first_at(data, needle, p);
        if p + needle.len() <= data.len() && 0 <= p {
            seq![data.subrange(0, p)] + split(
                data.subrange(p + needle.len(), data.len() as int),
                needle,
            )
        } else {
            seq![data]
        }
    } else {
        seq![data]
    }
}

/// The pieces with `needle` between each two of them.
pub open spec fn join(pieces: Seq<Seq<u8>>, needle: Seq<u8>) -> Seq<u8>
    decreases pieces.len(),
{
    if pieces.len() == 0 {
        Seq::empty()
    } else if pieces.len() == 1 {
        pieces[0]
    } else {
        pieces[0] + needle + join(pieces.subrange(1, pieces.len() as int), needle)
    }
}

/// The contents of borrowed pieces.
pub open spec fn contents(pieces: Seq<&[u8]>) -> Seq<Seq<u8>> {
    pieces.map_values(|piece: &[u8]| piece@)
}

/// Finds the leftmost occurrence of `needle`.
fn find(data: &[u8], needle: &[u8; 8]) -> (position: Option<usize>)
    ensures
        match position {
            Some(p) => first_at(data@, needle@, p as int),
            None => forall|q: int| !occurs_at(data@, needle@, q),
        },
{
    let size: usize = data.len();
    if size < 8 {
        return None;
    }
    let mut p: usize = 0;
    while p <= size - 8
        invariant
            size == data@.len(),
            8 <= size,
            p <= size - 8 + 1,
            forall|q: int| 0 <= q < p ==> !#[trigger] occurs_at(data@, needle@, q),
        decreases size - p,
    {
        let mut k: usize = 0;
        while k < 8 && data[p + k] == needle[k]
            invariant
                size == data@.len(),
                p + 8 <= size,
                k <= 8,
                forall|i: int| 0 <= i < k ==> data@[p + i] == needle@[i],
            decreases 8 - k,
        {
            k = k + 1;
        }
        if k == 8 {
            assert(data@.subrange(p as int, p + 8) =~= needle@);
            return Some(p);
        }
        assert(!occurs_at(data@, needle@, p as int)) by {
            if occurs_at(data@, needle@, p as int) {
                assert(data@.subrange(p as int, p + 8)[k as int] == needle@[k as int]);
            }
        }
        p = p + 1;
    }
    None
}

/// Cuts `orig_data` at every occurrence of `needle`. The needle itself is left out.
pub fn split_slice<'a>(orig_data: &'a [u8], needle: [u8; 8]) -> (pieces: Vec<&'a [u8]>)
    ensures
        contents(pieces@) == split(orig_data@, needle@),
{
    let mut out: Vec<&'a [u8]> = Vec::new();
    let mut rest: &'a [u8] = orig_data;
    assert(contents(out@) + split(rest@, needle@) =~= split(orig_data@, needle@));
    let mut next: Option<usize> = find(rest, &needle);
    while next.is_some()
        invariant
            match next {
                Some(p) => first_at(rest@, needle@, p as int),
                None => forall|q: int| !occurs_at(rest@, needle@, q),
            },
            contents(out@) + split(rest@, needle@) == split(orig_data@, needle@),
        decreases rest@.len(),
    {
        let p: usize = next.unwrap();
        let size: usize = rest.len();
        let head = slice_subrange(rest, 0, p);
        let tail = slice_subrange(rest, p + 8, size);
        let ghost before = out@;
        out.push(head);
        proof {
            lemma_first_is_unique(rest@, needle@, p as int);
            assert(contents(out@) =~= contents(before) + seq![head@]);
            assert(contents(before) + (seq![head@] + split(tail@, needle@)) =~= contents(before)
                + seq![head@] + split(tail@, needle@));
        }
        rest = tail;
        next = find(rest, &needle);
    }
    let ghost before = out@;
    out.push(rest);
    proof {
        assert(contents(out@) =~= contents(before) + seq![rest@]);
    }
    out
}

/// There is only one leftmost position.
proof fn lemma_first_is_unique(data: Seq<u8>, needle: Seq<u8>, p: int)
    requires
        first_at(data, needle, p),
    ensures
        (choose|q: int| first_at(data, needle, q)) == p,
{
    let q = choose|q: int| first_at(data, needle, q);
    if q < p {
        assert(!occurs_at(data, needle, q));
    } else if p < q {
        assert(!occurs_at(data, needle, p));
    }
}

/// Putting the needle back between the pieces gives the data again.
pub proof fn law_join_undoes_split(data: Seq<u8>, needle: Seq<u8>)
    ensures
        split(data, needle).len() >= 1,
        join(split(data, needle), needle) == data,
    decreases data.len(),
{
    if needle.len() > 0 && exists|p: int| first_at(data, needle, p) {
        let p = choose|p: int| first_at(data, needle, p);
        let tail = data.subrange(p + needle.len(), data.len() as int);
        let pieces = split(data, needle);
        law_join_undoes_split(tail, needle);
        assert(pieces.subrange(1, pieces.len() as int) =~= split(tail, needle));
        assert(data.subrange(0, p) + needle + tail =~= data) by {
            assert(data.subrange(p, p + needle.len()) == needle);
            assert forall|k: int| p <= k < p + needle.len() implies data[k] == needle[k - p] by {
                assert(data.subrange(p, p + needle.len())[k - p] == needle[k - p]);
            }
        }
    }
}

/// No piece holds the needle.
pub proof fn law_pieces_hold_no_needle(data: Seq<u8>, needle: Seq<u8>, i: int, q: int)
    requires
        needle.len() > 0,
        0 <= i < split(data, needle).len(),
    ensures
        !occurs_at(split(data, needle)[i], needle, q),
    decreases data.len(),
{
    if exists|p: int| first_at(data, needle, p) {
        let p = choose|p: int| first_at(data, needle, p);
        let tail = data.subrange(p + needle.len(), data.len() as int);
        if i == 0 {
            let head = data.subrange(0, p);
            if occurs_at(head, needle, q) {
                assert(head.subrange(q, q + needle.len()) =~= data.subrange(
                    q,
                    q + needle.len(),
                ));
                assert(occurs_at(data, needle, q));
            }
        } else {
            law_pieces_hold_no_needle(tail, needle, i - 1, q);
        }
    } else if occurs_at(data, needle, q) {
        lemma_some_first(data, needle, q);
    }
}

/// Where the needle occurs, it has a leftmost occurrence.
proof fn lemma_some_first(data: Seq<u8>, needle: Seq<u8>, q: int)
    requires
        occurs_at(data, needle, q),
    ensures
        exists|p: int| first_at(data, needle, p),
    decreases q,
{
    if exists|r: int| 0 <= r < q && #[trigger] occurs_at(data, needle, r) {
        let r = choose|r: int| 0 <= r < q && #[trigger] occurs_at(data, needle, r);
        lemma_some_first(data, needle, r);
    } else {
        assert(first_at(data, needle, q));
    }
}

/// The messages of a recording in which `delimiter` follows each message. What comes after
/// the last delimiter is no message.
pub fn mock_messages<'a>(recording: &'a [u8], delimiter: [u8; 8]) -> (messages: Vec<&'a [u8]>)
    ensures
        contents(messages@) == split(recording@, delimiter@).drop_last(),
{
    let mut messages: Vec<&'a [u8]> = split_slice(recording, delimiter);
    let ghost all = messages@;
    messages.pop();
    proof {
        law_join_undoes_split(recording@, delimiter@);
        assert(messages@ =~= all.drop_last());
        assert(contents(messages@) =~= contents(all).drop_last());
    }
    messages
}

/// The error of a read that has been going on for too long.
#[derive(Clone, Copy, Debug, PartialEq, Eq, Structural)]
pub struct ReadTimedOut;

/// Makes reads fail that have been going on for longer than `timeout`. Only one read is
/// active at a time, and it may consist of several attempts.
#[derive(Clone, Copy, Debug, PartialEq, Eq, Structural)]
pub struct ReadTimer {
    /// When the active read made its first attempt.
    pub read_start: Option<TimeSpan>,
    pub timeout: TimeSpan,
}

impl ReadTimer {
    pub open spec fn well_formed(self) -> bool {
        &&& self.timeout.well_formed()
        &&& self.read_start matches Some(start) ==> start.well_formed()
    }

    /// The active read, if there is one, has been going on for too long at `now`.
    pub open spec fn overdue(self, now: TimeSpan) -> bool {
        self.read_start matches Some(start) && now.total() - start.total() > self.timeout.total()
    }

    /// The timer after an attempt to read at `now`: an attempt without an active read begins
    /// one, and an attempt that comes too late ends the active read.
    pub open spec fn after_attempt(self, now: TimeSpan) -> ReadTimer {
        ReadTimer {
            read_start: if self.overdue(now) {
                None
            } else if self.read_start is None {
                Some(now)
            } else {
                self.read_start
            },
            timeout: self.timeout,
        }
    }

    /// The timer after attempts at all of `times`.
    pub open spec fn after_attempts(self, times: Seq<TimeSpan>) -> ReadTimer
        decreases times.len(),
    {
        if times.len() == 0 {
            self
        } else {
            self.after_attempts(times.drop_last()).after_attempt(times.last())
        }
    }

    /// Attempt `i` of those at `times` fails.
    pub open spec fn fails_at(self, times: Seq<TimeSpan>, i: int) -> bool {
        self.after_attempts(times.take(i)).overdue(times[i])
    }

    /// A timer with no active read.
    pub fn new(timeout: TimeSpan) -> (timer: ReadTimer)
        requires
            timeout.well_formed(),
        ensures
            timer.well_formed(),
            timer.read_start is None,
            timer.timeout == timeout,
    {
        ReadTimer { read_start: None, timeout }
    }

    /// Notes an attempt to read at `now`. An attempt without an active read begins one. An
    /// attempt that comes too late ends the active read and fails.
    pub fn start_read_or_timeout(&mut self, now: TimeSpan) -> (result: Result<(), ReadTimedOut>)
        requires
            old(self).well_formed(),
            now.well_formed(),
        ensures
            final(self).well_formed(),
            *final(self) == old(self).after_attempt(now),
            result is Err <==> old(self).overdue(now),
    {
        match self.read_start {
            Some(start) => {
                if now.saturating_sub(start).longer_than(self.timeout) {
                    self.read_start = None;
                    Err(ReadTimedOut)
                } else {
                    Ok(())
                }
            },
            None => {
                self.read_start = Some(now);
                Ok(())
            },
        }
    }
}

/// After attempt `a` has failed, an active read began later than that attempt.
proof fn lemma_start_after_failure(timer: ReadTimer, times: Seq<TimeSpan>, a: int, b: int)
    requires
        0 <= a < b <= times.len(),
        forall|i: int, j: int| 0 <= i <= j < times.len() ==> times[i].total() <= times[j].total(),
        timer.fails_at(times, a),
    ensures
        timer.after_attempts(times.take(b)).timeout == timer.timeout,
        timer.after_attempts(times.take(b)).read_start matches Some(start) ==> times[a].total()
            <= start.total(),
    decreases b,
{
    lemma_timeout_is_kept(timer, times.take(b));
    assert(times.take(b).drop_last() =~= times.take(b - 1));
    if a < b - 1 {
        lemma_start_after_failure(timer, times, a, b - 1);
    }
}

/// Attempts leave the timeout as it is.
proof fn lemma_timeout_is_kept(timer: ReadTimer, times: Seq<TimeSpan>)
    ensures
        timer.after_attempts(times).timeout == timer.timeout,
    decreases times.len(),
{
    if times.len() > 0 {
        lemma_timeout_is_kept(timer, times.drop_last());
    }
}

/// Two failures of a timer are further apart than its timeout.
pub proof fn law_failures_are_spaced(timer: ReadTimer, times: Seq<TimeSpan>, a: int, b: int)
    requires
        0 <= a < b < times.len(),
        forall|i: int, j: int| 0 <= i <= j < times.len() ==> times[i].total() <= times[j].total(),
        timer.fails_at(times, a),
        timer.fails_at(times, b),
    ensures
        times[b].total() - times[a].total() > timer.timeout.total(),
{
    lemma_start_after_failure(timer, times, a, b);
}

/// The attempt after a failure begins a new read and succeeds.
pub proof fn law_failure_ends_read(timer: ReadTimer, late: TimeSpan, next: TimeSpan)
    requires
        timer.overdue(late),
    ensures
        !timer.after_attempt(late).overdue(next),
        timer.after_attempt(late).after_attempt(next).read_start == Some(next),
{
}

/// How many milliseconds a write may come early, exclusive.
pub const JITTER_MILLIS: u64 = 64;

/// A message and how long to wait before it is written.
pub struct MockWrite<'a> {
    pub delay: TimeSpan,
    pub message: &'a [u8],
}

/// Draws a number below `bound` with `rand::RngExt::random_range` on the generator of
/// `rand::rng`, which is stated to return a number of the range, here `0..bound`, and not
/// to accept an empty one.
#[verifier::external_body]
fn random_below(bound: u64) -> (number: u64)
    requires
        0 < bound,
    ensures
        number < bound,
{
    rand::RngExt::random_range(&mut rand::rng(), 0..bound)
}

/// Picks one of the messages with `rand::distr::slice::Choose`, which is stated to sample
/// the elements of the slice that it was made from and to refuse an empty one.
#[verifier::external_body]
fn choose_message<'a>(messages: &[&'a [u8]]) -> (message: &'a [u8])
    requires
        0 < messages@.len(),
    ensures
        contents(messages@).contains(message@),
{
    *rand::RngExt::sample(
        &mut rand::rng(),
        rand::distr::slice::Choose::new(messages).unwrap(),
    )
}

/// The time to wait before a write that comes `jitter_millis` early. It is never negative.
pub fn write_delay(timeout: TimeSpan, jitter_millis: u64) -> (delay: TimeSpan)
    requires
        timeout.well_formed(),
    ensures
        delay.well_formed(),
        delay.total() == if timeout.total() >= jitter_millis * NANOS_PER_MILLI {
            timeout.total() - jitter_millis * NANOS_PER_MILLI
        } else {
            0
        },
{
    timeout.saturating_sub(TimeSpan::from_millis(jitter_millis))
}

/// Draws the next message to write and the time to wait before it.
pub fn next_mock_write<'a>(timeout: TimeSpan, messages: &Vec<&'a [u8]>) -> (write: MockWrite<'a>)
    requires
        timeout.well_formed(),
        0 < messages@.len(),
    ensures
        write.delay.well_formed(),
        write.delay.total() <= timeout.total(),
        write.delay.total() > timeout.total() - JITTER_MILLIS * NANOS_PER_MILLI,
        write.delay.total() == 0 || (timeout.total() - write.delay.total())
            % NANOS_PER_MILLI as int == 0,
        contents(messages@).contains(write.message@),
{
    let jitter: u64 = random_below(JITTER_MILLIS);
    MockWrite {
        delay: write_delay(timeout, jitter),
        message: choose_message(messages.as_slice()),
    }
}

/// The first piece ends at the leftmost needle, and the pieces after it are those into which what
/// follows that needle is cut.
pub proof fn law_pieces_end_at_the_leftmost_needle(
    data: &[u8],
    needle: [u8; 8],
    pieces: Vec<&[u8]>,
    p: int,
    rest: &[u8],
    rest_pieces: Vec<&[u8]>,
    i: int,
)
    requires
        call_ensures(split_slice, (data, needle), pieces),
        0 <= p,
        p + 8 <= data@.len(),
        data@.subrange(p, p + 8) == needle@,
        forall|q: int| 0 <= q < p ==> #[trigger] data@.subrange(q, q + 8) != needle@,
        rest@ == data@.subrange(p + 8, data@.len() as int),
        call_ensures(split_slice, (rest, needle), rest_pieces),
    ensures
        pieces@[0]@ == data@.subrange(0, p),
        pieces@.len() == rest_pieces@.len() + 1,
        0 <= i < rest_pieces@.len() ==> pieces@[i + 1]@ == rest_pieces@[i]@,
{
    assert(first_at(data@, needle@, p)) by {
        assert forall|q: int| 0 <= q < p implies !#[trigger] occurs_at(data@, needle@, q) by {
            assert(data@.subrange(q, q + 8) != needle@);
        }
    }
    lemma_first_is_unique(data@, needle@, p);
    assert(split(data@, needle@) == seq![data@.subrange(0, p)] + split(rest@, needle@));
    assert(contents(pieces@).len() == pieces@.len());
    assert(contents(rest_pieces@).len() == rest_pieces@.len());
    assert(contents(pieces@)[0] == pieces@[0]@);
    if 0 <= i < rest_pieces@.len() {
        assert(contents(pieces@)[i + 1] == pieces@[i + 1]@);
        assert(contents(rest_pieces@)[i] == rest_pieces@[i]@);
    }
}

/// Data without a needle is its own only piece.
pub proof fn law_data_without_needle_is_one_piece(
    data: &[u8],
    needle: [u8; 8],
    pieces: Vec<&[u8]>,
)
    requires
        call_ensures(split_slice, (data, needle), pieces),
        forall|q: int|
            0 <= q && q + 8 <= data@.len() ==> #[trigger] data@.subrange(q, q + 8) != needle@,
    ensures
        pieces@.len() == 1,
        pieces@[0]@ == data@,
{
    assert forall|q: int| !first_at(data@, needle@, q) by {
        if first_at(data@, needle@, q) {
            assert(data@.subrange(q, q + 8) != needle@);
        }
    }
    assert(contents(pieces@).len() == pieces@.len());
    assert(contents(pieces@)[0] == pieces@[0]@);
}

/// The pieces with the needle between them make up the data, and none of them holds the needle.
pub proof fn law_pieces_make_up_the_data(
    data: &[u8],
    needle: [u8; 8],
    pieces: Vec<&[u8]>,
    i: int,
    q: int,
)
    requires
        call_ensures(split_slice, (data, needle), pieces),
    ensures
        join(contents(pieces@), needle@) == data@,
        0 <= i < pieces@.len() && 0 <= q && q + 8 <= pieces@[i]@.len() ==> pieces@[i]@.subrange(
            q,
            q + 8,
        ) != needle@,
{
    law_join_undoes_split(data@, needle@);
    if 0 <= i < pieces@.len() {
        assert(contents(pieces@)[i] == pieces@[i]@);
        law_pieces_hold_no_needle(data@, needle@, i, q);
    }
}

/// Joining puts the needle between each two pieces, and nowhere else.
pub proof fn law_join_puts_the_needle_between(
    first: Seq<u8>,
    rest: Seq<Seq<u8>>,
    needle: Seq<u8>,
)
    ensures
        join(seq![first], needle) == first,
        rest.len() > 0 ==> join(seq![first] + rest, needle) == first + needle + join(rest, needle),
{
    let pieces = seq![first] + rest;
    assert(pieces.subrange(1, pieces.len() as int) =~= rest);
}

/// The messages of a recording are all of its pieces but the last.
pub proof fn law_messages_are_all_pieces_but_the_last(
    recording: &[u8],
    delimiter: [u8; 8],
    messages: Vec<&[u8]>,
    pieces: Vec<&[u8]>,
    i: int,
)
    requires
        call_ensures(mock_messages, (recording, delimiter), messages),
        call_ensures(split_slice, (recording, delimiter), pieces),
    ensures
        messages@.len() + 1 == pieces@.len(),
        0 <= i < messages@.len() ==> messages@[i]@ == pieces@[i]@,
{
    law_join_undoes_split(recording@, delimiter@);
    assert(contents(messages@).len() == messages@.len());
    assert(contents(pieces@).len() == pieces@.len());
    if 0 <= i < messages@.len() {
        assert(contents(messages@)[i] == messages@[i]@);
        assert(contents(pieces@)[i] == pieces@[i]@);
    }
}

/// A new timer has no active read and keeps its timeout.
pub proof fn law_new_timers_have_no_read(timeout: TimeSpan, timer: ReadTimer)
    requires
        call_ensures(ReadTimer::new, (timeout,), timer),
    ensures
        timer.timeout == timeout,
        timer.read_start is None,
{
}

/// An attempt fails if and only if a read is active and began longer ago than the timeout, to the
/// nanosecond. A failure ends that read. Without an active read an attempt begins one, and any other
/// attempt leaves the active read as it is.
pub proof fn law_attempts_fail_after_the_timeout(
    timer: &mut ReadTimer,
    now: TimeSpan,
    result: Result<(), ReadTimedOut>,
)
    requires
        call_ensures(ReadTimer::start_read_or_timeout, (timer, now), result),
    ensures
        final(timer).timeout == old(timer).timeout,
        old(timer).read_start is None ==> result is Ok && final(timer).read_start == Some(now),
        old(timer).read_start matches Some(start) ==> {
            let late = (now.secs * 1_000_000_000 + now.nanos) - (start.secs * 1_000_000_000
                + start.nanos) > old(timer).timeout.secs * 1_000_000_000 + old(
                timer,
            ).timeout.nanos;
            &&& result is Err <==> late
            &&& late ==> final(timer).read_start is None
            &&& !late ==> final(timer).read_start == Some(start)
        },
{
}

/// A write waits for the timeout without the jitter, or not at all if the jitter is longer.
pub proof fn law_jitter_shortens_the_wait(timeout: TimeSpan, jitter_millis: u64, delay: TimeSpan)
    requires
        call_ensures(write_delay, (timeout, jitter_millis), delay),
    ensures
        ({
            let left = timeout.secs * 1_000_000_000 + timeout.nanos - jitter_millis * 1_000_000;
            let wait = delay.secs * 1_000_000_000 + delay.nanos;
            &&& left >= 0 ==> wait == left
            &&& left < 0 ==> wait == 0
        }),
{
}

/// A drawn write is that of a message, and comes early by a whole number of less than 64
/// milliseconds, or at once if the timeout is shorter than that.
pub proof fn law_drawn_writes_are_messages(
    timeout: TimeSpan,
    messages: Vec<&[u8]>,
    write: MockWrite<'_>,
)
    requires
        call_ensures(next_mock_write, (timeout, &messages), write),
    ensures
        exists|i: int| 0 <= i < messages@.len() && #[trigger] messages@[i]@ == write.message@,
        ({
            let whole = timeout.secs * 1_000_000_000 + timeout.nanos;
            let wait = write.delay.secs * 1_000_000_000 + write.delay.nanos;
            &&& whole - 64_000_000 < wait <= whole
            &&& wait == 0 || (whole - wait) % 1_000_000 == 0
        }),
{
    let i = choose|i: int|
        0 <= i < contents(messages@).len() && contents(messages@)[i] == write.message@;
    assert(messages@[i]@ == write.message@);
}

} // verus!
