//! The capture loop: which images are saved, when the exposure is changed and when the loop ends.
use vstd::prelude::*;

use crate::save::Stamp;
use crate::time::{TimeSpan, NANOS_PER_MICRO};

verus! {

/// The exposure is changed only if the optimum is further away from it than this.
pub const EXPOSURE_TOLERANCE_MICROS: u64 = 500;

/// What came of a capture.
#[derive(Clone, Copy, Debug, PartialEq, Eq, Structural)]
pub enum Captured {
    /// An image, and the exposure that it was captured with, if the image tells it.
    Image { exposure: Option<TimeSpan> },
    TimedOut,
    /// The exposure was not started, possibly because of an interrupt.
    NotStarted,
    ExposureFailed,
    OtherError,
}

/// What the capture loop does next. From the capture of an image on, the action tells when that
/// capture started.
#[derive(Clone, Copy, Debug, PartialEq, Eq, Structural)]
pub enum CaptureAction {
    /// Look whether the station and its tasks are to go on.
    CheckFlags,
    /// Look at the time of day.
    NoteTime,
    Capture { started: Stamp },
    /// Calculate the optimum exposure from the image, which was captured with `exposure`.
    CalculateExposure { started: Stamp, exposure: TimeSpan },
    SetExposure { started: Stamp, from: TimeSpan, to: TimeSpan },
    /// Read the monotonic clock.
    ReadClock { started: Stamp },
    /// Hand the image to the save task, with the time at which its capture started.
    Save { started: Stamp },
    /// End the loop, and the other tasks with it if `stop_tasks` holds.
    Stop { stop_tasks: bool },
}

impl CaptureAction {
    /// When the capture started that the action is about.
    pub open spec fn capture_start(self) -> Option<Stamp> {
        match self {
            CaptureAction::Capture { started } => Some(started),
            CaptureAction::CalculateExposure { started, .. } => Some(started),
            CaptureAction::SetExposure { started, .. } => Some(started),
            CaptureAction::ReadClock { started } => Some(started),
            CaptureAction::Save { started } => Some(started),
            _ => None,
        }
    }

    fn start(self) -> (started: Option<Stamp>)
        ensures
            started == self.capture_start(),
    {
        match self {
            CaptureAction::Capture { started } => Some(started),
            CaptureAction::CalculateExposure { started, .. } => Some(started),
            CaptureAction::SetExposure { started, .. } => Some(started),
            CaptureAction::ReadClock { started } => Some(started),
            CaptureAction::Save { started } => Some(started),
            _ => None,
        }
    }
}

/// What the capture loop learns from what it did.
#[derive(Clone, Copy, Debug, PartialEq, Eq, Structural)]
pub enum CaptureEvent {
    Flags { running: bool, task_run: bool },
    /// The time of day.
    Time(Stamp),
    Captured(Captured),
    /// The optimum exposure, if it could be calculated.
    Calculated(Option<TimeSpan>),
    /// Whether the camera took the exposure.
    ExposureSet(bool),
    /// The time on the monotonic clock.
    Clock(TimeSpan),
    /// Whether the save task took the image.
    HandedOver(bool),
}

impl CaptureEvent {
    pub open spec fn well_formed(self) -> bool {
        match self {
            CaptureEvent::Captured(Captured::Image { exposure: Some(exposure) }) =>
                exposure.well_formed(),
            CaptureEvent::Calculated(Some(optimum)) => optimum.well_formed(),
            CaptureEvent::Clock(now) => now.well_formed(),
            CaptureEvent::Time(time) => time.well_formed(),
            _ => true,
        }
    }

    /// The event is an outcome of `action`.
    pub open spec fn answers(self, action: CaptureAction) -> bool {
        match action {
            CaptureAction::CheckFlags => self is Flags,
            CaptureAction::NoteTime => self is Time,
            CaptureAction::Capture { .. } => self is Captured,
            CaptureAction::CalculateExposure { .. } => self is Calculated,
            CaptureAction::SetExposure { .. } => self is ExposureSet,
            CaptureAction::ReadClock { .. } => self is Clock,
            CaptureAction::Save { .. } => self is HandedOver,
            CaptureAction::Stop { .. } => false,
        }
    }
}

/// The two exposures are further apart than the tolerance.
pub open spec fn far_apart(a: TimeSpan, b: TimeSpan) -> bool {
    let tolerance = EXPOSURE_TOLERANCE_MICROS * NANOS_PER_MICRO;
    a.total() - b.total() > tolerance || b.total() - a.total() > tolerance
}

/// The capture loop between two actions.
#[derive(Clone, Copy, Debug, PartialEq, Eq, Structural)]
pub struct CaptureLoop {
    /// Images are saved only if more time than this has passed since the last save.
    pub cadence: TimeSpan,
    /// When the last image was handed over to be saved.
    pub last_save: Option<TimeSpan>,
    /// What is to be done next.
    pub action: CaptureAction,
}

impl CaptureLoop {
    pub open spec fn well_formed(self) -> bool {
        &&& self.cadence.well_formed()
        &&& self.last_save matches Some(time) ==> time.well_formed()
        &&& self.action matches CaptureAction::CalculateExposure { exposure, .. }
            ==> exposure.well_formed()
        &&& self.action.capture_start() matches Some(started) ==> started.well_formed()
    }

    /// An image that is there at `now` is to be saved.
    pub open spec fn is_due(self, now: TimeSpan) -> bool {
        self.last_save matches Some(last) ==> now.total() - last.total() > self.cadence.total()
    }

    /// What follows the current action if it came out as `event`.
    pub open spec fn next_action(self, event: CaptureEvent) -> CaptureAction {
        match (event, self.action.capture_start()) {
            (CaptureEvent::Flags { running, task_run }, _) => if running && task_run {
                CaptureAction::NoteTime
            } else {
                CaptureAction::Stop { stop_tasks: false }
            },
            (CaptureEvent::Time(started), _) => CaptureAction::Capture { started },
            (
                CaptureEvent::Captured(Captured::Image { exposure: Some(exposure) }),
                Some(started),
            ) => CaptureAction::CalculateExposure { started, exposure },
            (
                CaptureEvent::Captured(Captured::Image { exposure: None }),
                Some(started),
            ) => CaptureAction::ReadClock { started },
            (CaptureEvent::Captured(Captured::ExposureFailed), _) => CaptureAction::Stop {
                stop_tasks: true,
            },
            (CaptureEvent::Calculated(optimum), Some(started)) => match (self.action, optimum) {
                (CaptureAction::CalculateExposure { exposure, .. }, Some(to)) if far_apart(
                    exposure,
                    to,
                ) => CaptureAction::SetExposure { started, from: exposure, to },
                _ => CaptureAction::ReadClock { started },
            },
            (CaptureEvent::ExposureSet(_), Some(started)) => CaptureAction::ReadClock { started },
            (CaptureEvent::Clock(now), Some(started)) => if self.is_due(now) {
                CaptureAction::Save { started }
            } else {
                CaptureAction::CheckFlags
            },
            _ => CaptureAction::CheckFlags,
        }
    }

    /// The loop after the current action came out as `event`.
    pub open spec fn after(self, event: CaptureEvent) -> CaptureLoop {
        CaptureLoop {
            cadence: self.cadence,
            last_save: match event {
                CaptureEvent::Clock(now) if self.is_due(now) => Some(now),
                _ => self.last_save,
            },
            action: self.next_action(event),
        }
    }

    /// The loop after all of `events`.
    pub open spec fn after_all(self, events: Seq<CaptureEvent>) -> CaptureLoop
        decreases events.len(),
    {
        if events.len() == 0 {
            self
        } else {
            self.after_all(events.drop_last()).after(events.last())
        }
    }

    /// Each of `events` is an outcome of the action that was due.
    pub open spec fn admits(self, events: Seq<CaptureEvent>) -> bool {
        forall|i: int|
            0 <= i < events.len() ==> (#[trigger] events[i]).answers(
                self.after_all(events.take(i)).action,
            )
    }

    /// Event `i` is a look at the clock upon which the image is saved.
    pub open spec fn saves_at(self, events: Seq<CaptureEvent>, i: int) -> bool {
        events[i] is Clock && self.after_all(events.take(i)).is_due(events[i]->Clock_0)
    }

    /// A loop that has saved nothing yet.
    pub fn new(cadence: TimeSpan) -> (start: CaptureLoop)
        requires
            cadence.well_formed(),
        ensures
            start.well_formed(),
            start == (CaptureLoop { cadence, last_save: None, action: CaptureAction::CheckFlags }),
    {
        CaptureLoop { cadence, last_save: None, action: CaptureAction::CheckFlags }
    }

    /// Takes note of what the current action came out as, and tells the next action.
    pub fn step(&mut self, event: CaptureEvent) -> (action: CaptureAction)
        requires
            old(self).well_formed(),
            event.well_formed(),
            event.answers(old(self).action),
        ensures
            final(self).well_formed(),
            *final(self) == old(self).after(event),
            action == final(self).action,
    {
        let action = match (event, self.action.start()) {
            (CaptureEvent::Flags { running, task_run }, _) => if running && task_run {
                CaptureAction::NoteTime
            } else {
                CaptureAction::Stop { stop_tasks: false }
            },
            (CaptureEvent::Time(started), _) => CaptureAction::Capture { started },
            (CaptureEvent::Captured(Captured::Image { exposure }), Some(started)) => match exposure {
                Some(exposure) => CaptureAction::CalculateExposure { started, exposure },
                None => CaptureAction::ReadClock { started },
            },
            (CaptureEvent::Captured(Captured::ExposureFailed), _) => CaptureAction::Stop {
                stop_tasks: true,
            },
            (CaptureEvent::Calculated(optimum), Some(started)) => match (self.action, optimum) {
                (CaptureAction::CalculateExposure { exposure, .. }, Some(to)) => {
                    let tolerance = TimeSpan::from_micros(EXPOSURE_TOLERANCE_MICROS);
                    if to.abs_diff(exposure).longer_than(tolerance) {
                        CaptureAction::SetExposure { started, from: exposure, to }
                    } else {
                        CaptureAction::ReadClock { started }
                    }
                },
                _ => CaptureAction::ReadClock { started },
            },
            (CaptureEvent::ExposureSet(_), Some(started)) => CaptureAction::ReadClock { started },
            (CaptureEvent::Clock(now), Some(started)) => {
                let due = match self.last_save {
                    Some(last) => now.saturating_sub(last).longer_than(self.cadence),
                    None => true,
                };
                if due {
                    self.last_save = Some(now);
                    CaptureAction::Save { started }
                } else {
                    CaptureAction::CheckFlags
                }
            },
            _ => CaptureAction::CheckFlags,
        };
        self.action = action;
        action
    }
}

/// The loop keeps its cadence, and its last save never moves back.
proof fn lemma_last_save_grows(start: CaptureLoop, events: Seq<CaptureEvent>, a: int, b: int)
    requires
        0 <= a <= b <= events.len(),
    ensures
        start.after_all(events.take(b)).cadence == start.after_all(events.take(a)).cadence,
        start.after_all(events.take(a)).last_save matches Some(early) ==> start.after_all(
            events.take(b),
        ).last_save matches Some(late) && early.total() <= late.total(),
    decreases b,
{
    if a < b {
        lemma_last_save_grows(start, events, a, b - 1);
        assert(events.take(b).drop_last() =~= events.take(b - 1));
        let before = start.after_all(events.take(b - 1));
        assert(before.cadence.total() >= 0);
    }
}

/// Any two saves are further apart than the cadence.
pub proof fn law_saves_are_spaced(
    start: CaptureLoop,
    events: Seq<CaptureEvent>,
    a: int,
    b: int,
)
    requires
        0 <= a < b < events.len(),
        start.saves_at(events, a),
        start.saves_at(events, b),
    ensures
        events[b]->Clock_0.total() - events[a]->Clock_0.total() > start.cadence.total(),
{
    assert(events.take(a + 1).drop_last() =~= events.take(a));
    assert(events.take(0) =~= Seq::<CaptureEvent>::empty());
    lemma_last_save_grows(start, events, 0, b);
    lemma_last_save_grows(start, events, a + 1, b);
}

/// The last save is that of an earlier event.
proof fn lemma_last_save_has_event(start: CaptureLoop, events: Seq<CaptureEvent>, n: int) -> (i:
    int)
    requires
        start.last_save is None,
        0 <= n <= events.len(),
        start.after_all(events.take(n)).last_save is Some,
    ensures
        0 <= i < n,
        start.saves_at(events, i),
        start.after_all(events.take(n)).last_save == Some(events[i]->Clock_0),
    decreases n,
{
    if n == 0 {
        assert(events.take(0) =~= Seq::<CaptureEvent>::empty());
        0
    } else {
        assert(events.take(n).drop_last() =~= events.take(n - 1));
        if start.saves_at(events, n - 1) {
            n - 1
        } else {
            lemma_last_save_has_event(start, events, n - 1)
        }
    }
}

/// An image is passed over only if an image was saved so shortly before that the cadence has
/// not passed since. So the first image is always saved.
pub proof fn law_skipped_images_follow_a_save(
    start: CaptureLoop,
    events: Seq<CaptureEvent>,
    b: int,
)
    requires
        start.last_save is None,
        0 <= b < events.len(),
        events[b] is Clock,
        !start.saves_at(events, b),
    ensures
        exists|a: int|
            0 <= a < b && #[trigger] start.saves_at(events, a) && events[b]->Clock_0.total()
                - events[a]->Clock_0.total() <= start.cadence.total(),
{
    let a = lemma_last_save_has_event(start, events, b);
    assert(events.take(0) =~= Seq::<CaptureEvent>::empty());
    lemma_last_save_grows(start, events, 0, b);
    assert(start.saves_at(events, a));
}

/// The exposure is only ever changed to a calculated optimum that is further away than the
/// tolerance from the exposure of the image.
pub proof fn law_small_exposure_changes_are_ignored(start: CaptureLoop, events: Seq<CaptureEvent>)
    requires
        start.action is CheckFlags,
        start.admits(events),
        start.after_all(events).action is SetExposure,
    ensures
        far_apart(
            start.after_all(events).action->SetExposure_from,
            start.after_all(events).action->SetExposure_to,
        ),
        events.len() >= 2,
        events.last() == CaptureEvent::Calculated(
            Some(start.after_all(events).action->SetExposure_to),
        ),
        events[events.len() - 2] == CaptureEvent::Captured(
            Captured::Image { exposure: Some(start.after_all(events).action->SetExposure_from) },
        ),
{
    let n = events.len() as int;
    assert(events[n - 1].answers(start.after_all(events.take(n - 1)).action));
    assert(events.drop_last() =~= events.take(n - 1));
    if n == 1 {
        assert(events.take(0) =~= Seq::<CaptureEvent>::empty());
    } else {
        assert(events[n - 2].answers(start.after_all(events.take(n - 2)).action));
        assert(events.take(n - 1).drop_last() =~= events.take(n - 2));
    }
}

/// Event `j` of `events` is the last look at the time of day, which gave `started`, and `captured`
/// tells whether an image was captured right after it.
pub open spec fn is_last_time(
    events: Seq<CaptureEvent>,
    j: int,
    started: Stamp,
    captured: bool,
) -> bool {
    &&& 0 <= j < events.len()
    &&& events[j] == CaptureEvent::Time(started)
    &&& forall|k: int| j < k < events.len() ==> !(#[trigger] events[k] is Time)
    &&& captured ==> j + 1 < events.len() && (events[j + 1] matches CaptureEvent::Captured(
        Captured::Image { .. },
    ))
    &&& !captured ==> j + 1 == events.len()
}

/// Only a look at the time of day begins with a new start, and only an image takes the loop on from
/// a capture.
proof fn lemma_start_is_kept(before: CaptureLoop, event: CaptureEvent)
    requires
        event.answers(before.action),
        !(event is Time),
        before.after(event).action.capture_start() is Some,
    ensures
        before.action.capture_start() == before.after(event).action.capture_start(),
        !(before.after(event).action is Capture),
        before.action is Capture ==> (event matches CaptureEvent::Captured(
            Captured::Image { .. },
        )),
{
}

/// What holds of events that were admitted holds of those before the last.
proof fn lemma_earlier_events_are_admitted(start: CaptureLoop, events: Seq<CaptureEvent>)
    requires
        events.len() > 0,
        start.admits(events),
    ensures
        start.admits(events.drop_last()),
        events.last().answers(start.after_all(events.drop_last()).action),
{
    let before = events.drop_last();
    assert forall|i: int| 0 <= i < before.len() implies (#[trigger] before[i]).answers(
        start.after_all(before.take(i)).action,
    ) by {
        assert(events[i].answers(start.after_all(events.take(i)).action));
        assert(before.take(i) =~= events.take(i));
    }
    assert(events[events.len() - 1].answers(start.after_all(events.take(events.len() - 1)).action));
    assert(before =~= events.take(events.len() - 1));
}

/// From the look at the time of day on, the loop carries that time.
proof fn lemma_start_is_carried(start: CaptureLoop, events: Seq<CaptureEvent>) -> (j: int)
    requires
        start.action is CheckFlags,
        start.admits(events),
        start.after_all(events).action.capture_start() is Some,
    ensures
        is_last_time(
            events,
            j,
            start.after_all(events).action.capture_start()->Some_0,
            !(start.after_all(events).action is Capture),
        ),
    decreases events.len(),
{
    let before = events.drop_last();
    lemma_earlier_events_are_admitted(start, events);
    if events.last() is Time {
        events.len() - 1
    } else {
        lemma_start_is_kept(start.after_all(before), events.last());
        let j = lemma_start_is_carried(start, before);
        assert(events =~= before.push(events.last()));
        j
    }
}

/// An image is handed over with the time of day that was noted right before its own capture: that
/// was the last look at the time of day, and the image was captured right after it.
pub proof fn law_images_carry_their_start(start: CaptureLoop, events: Seq<CaptureEvent>)
    requires
        start.action is CheckFlags,
        start.admits(events),
        start.after_all(events).action is Save,
    ensures
        exists|j: int| #[trigger]
            is_last_time(events, j, start.after_all(events).action->Save_started, true),
{
    let j = lemma_start_is_carried(start, events);
    assert(is_last_time(events, j, start.after_all(events).action->Save_started, true));
}

/// The loop ends only when a flag is down or an exposure has failed, and only a failed exposure
/// ends the other tasks too.
pub proof fn law_loop_ends_for_a_reason(start: CaptureLoop, events: Seq<CaptureEvent>)
    requires
        start.action is CheckFlags,
        start.after_all(events).action is Stop,
    ensures
        events.len() >= 1,
        start.after_all(events).action->Stop_stop_tasks <==> events.last()
            == CaptureEvent::Captured(Captured::ExposureFailed),
        !start.after_all(events).action->Stop_stop_tasks ==> (events.last() matches
            CaptureEvent::Flags { running, task_run } && !(running && task_run)),
{
}

/// A new loop looks at the flags first, has saved nothing and keeps the cadence that it was given.
pub proof fn law_new_loops_have_saved_nothing(cadence: TimeSpan, capture: CaptureLoop)
    requires
        call_ensures(CaptureLoop::new, (cadence,), capture),
    ensures
        capture.cadence == cadence,
        capture.last_save is None,
        capture.action is CheckFlags,
{
}

/// The loop goes on with the time of day if and only if both flags are up, and otherwise it ends and
/// leaves the other tasks alone.
pub proof fn law_both_flags_keep_the_loop_going(
    capture: &mut CaptureLoop,
    running: bool,
    task_run: bool,
    action: CaptureAction,
)
    requires
        call_ensures(
            CaptureLoop::step,
            (capture, CaptureEvent::Flags { running, task_run }),
            action,
        ),
        old(capture).action is CheckFlags,
    ensures
        final(capture).action == action,
        running && task_run ==> action is NoteTime,
        !(running && task_run) ==> action == (CaptureAction::Stop { stop_tasks: false }),
        final(capture).last_save == old(capture).last_save,
        final(capture).cadence == old(capture).cadence,
{
}

/// Every capture starts at the time of day that was noted last.
pub proof fn law_captures_start_at_the_noted_time(
    capture: &mut CaptureLoop,
    time: Stamp,
    action: CaptureAction,
)
    requires
        call_ensures(CaptureLoop::step, (capture, CaptureEvent::Time(time)), action),
        old(capture).action is NoteTime,
    ensures
        action == (CaptureAction::Capture { started: time }),
        final(capture).action == action,
        final(capture).last_save == old(capture).last_save,
        final(capture).cadence == old(capture).cadence,
{
}

/// An image that tells its exposure is used to calculate the optimum, and one that does not goes on
/// to the clock. A failed exposure ends the loop and the other tasks, and after any other failure
/// the loop looks at the flags again.
pub proof fn law_captures_come_to_what_they_are(
    capture: &mut CaptureLoop,
    started: Stamp,
    captured: Captured,
    action: CaptureAction,
)
    requires
        call_ensures(CaptureLoop::step, (capture, CaptureEvent::Captured(captured)), action),
        old(capture).action == (CaptureAction::Capture { started }),
    ensures
        final(capture).action == action,
        captured matches Captured::Image { exposure } ==> (if exposure is Some {
            action == (CaptureAction::CalculateExposure { started, exposure: exposure->Some_0 })
        } else {
            action == (CaptureAction::ReadClock { started })
        }),
        captured is ExposureFailed ==> action == (CaptureAction::Stop { stop_tasks: true }),
        captured is TimedOut || captured is NotStarted || captured is OtherError ==> action
            is CheckFlags,
        final(capture).last_save == old(capture).last_save,
        final(capture).cadence == old(capture).cadence,
{
}

/// An optimum is set if and only if it is more than 500 microseconds longer or shorter than the
/// exposure of the image, however long both are. Otherwise, and if there is no optimum, the
/// exposure stays, and in any case the image goes on to the clock.
pub proof fn law_distant_optimum_is_set(
    capture: &mut CaptureLoop,
    started: Stamp,
    exposure: TimeSpan,
    optimum: Option<TimeSpan>,
    action: CaptureAction,
)
    requires
        call_ensures(CaptureLoop::step, (capture, CaptureEvent::Calculated(optimum)), action),
        old(capture).action == (CaptureAction::CalculateExposure { started, exposure }),
    ensures
        final(capture).action == action,
        optimum matches Some(to) ==> {
            let ahead = (to.secs * 1_000_000_000 + to.nanos) - (exposure.secs * 1_000_000_000
                + exposure.nanos);
            &&& ahead > 500_000 || ahead < -500_000 ==> action == (CaptureAction::SetExposure {
                started,
                from: exposure,
                to,
            })
            &&& -500_000 <= ahead <= 500_000 ==> action == (CaptureAction::ReadClock { started })
        },
        optimum is None ==> action == (CaptureAction::ReadClock { started }),
        final(capture).last_save == old(capture).last_save,
        final(capture).cadence == old(capture).cadence,
{
}

/// Whether or not the camera took an exposure, the image goes on to the clock.
pub proof fn law_images_survive_a_refused_exposure(
    capture: &mut CaptureLoop,
    started: Stamp,
    from: TimeSpan,
    to: TimeSpan,
    taken: bool,
    action: CaptureAction,
)
    requires
        call_ensures(CaptureLoop::step, (capture, CaptureEvent::ExposureSet(taken)), action),
        old(capture).action == (CaptureAction::SetExposure { started, from, to }),
    ensures
        action == (CaptureAction::ReadClock { started }),
        final(capture).action == action,
        final(capture).last_save == old(capture).last_save,
        final(capture).cadence == old(capture).cadence,
{
}

/// An image is handed over if and only if none was before, or the last one was longer ago than the
/// cadence, to the nanosecond. It takes its start along, and the clock is what the next image is
/// measured against. An image that is not handed over leaves that as it is.
pub proof fn law_images_are_handed_over_when_due(
    capture: &mut CaptureLoop,
    started: Stamp,
    now: TimeSpan,
    action: CaptureAction,
)
    requires
        call_ensures(CaptureLoop::step, (capture, CaptureEvent::Clock(now)), action),
        old(capture).action == (CaptureAction::ReadClock { started }),
    ensures
        ({
            let due = match old(capture).last_save {
                None => true,
                Some(last) => (now.secs * 1_000_000_000 + now.nanos) - (last.secs * 1_000_000_000
                    + last.nanos) > old(capture).cadence.secs * 1_000_000_000 + old(
                    capture,
                ).cadence.nanos,
            };
            &&& due ==> action == (CaptureAction::Save { started }) && final(capture).last_save
                == Some(now)
            &&& !due ==> action is CheckFlags && final(capture).last_save == old(capture).last_save
        }),
        final(capture).action == action,
        final(capture).cadence == old(capture).cadence,
{
}

/// An image that the save task did not take is not offered again, and still counts as the last one.
pub proof fn law_refused_images_count_as_saved(
    capture: &mut CaptureLoop,
    started: Stamp,
    taken: bool,
    action: CaptureAction,
)
    requires
        call_ensures(CaptureLoop::step, (capture, CaptureEvent::HandedOver(taken)), action),
        old(capture).action == (CaptureAction::Save { started }),
    ensures
        action is CheckFlags,
        final(capture).action == action,
        final(capture).last_save == old(capture).last_save,
        final(capture).cadence == old(capture).cadence,
{
}

/// The loop takes every outcome of what it is doing.
pub proof fn law_loops_take_every_outcome(capture: &mut CaptureLoop, event: CaptureEvent)
    requires
        old(capture).well_formed(),
        event matches CaptureEvent::Time(time) ==> time.well_formed(),
        event matches CaptureEvent::Clock(now) ==> now.nanos < 1_000_000_000,
        event matches CaptureEvent::Calculated(Some(optimum)) ==> optimum.nanos < 1_000_000_000,
        event matches CaptureEvent::Captured(Captured::Image { exposure: Some(exposure) })
            ==> exposure.nanos < 1_000_000_000,
        match event {
            CaptureEvent::Flags { .. } => old(capture).action is CheckFlags,
            CaptureEvent::Time(_) => old(capture).action is NoteTime,
            CaptureEvent::Captured(_) => old(capture).action is Capture,
            CaptureEvent::Calculated(_) => old(capture).action is CalculateExposure,
            CaptureEvent::ExposureSet(_) => old(capture).action is SetExposure,
            CaptureEvent::Clock(_) => old(capture).action is ReadClock,
            CaptureEvent::HandedOver(_) => old(capture).action is Save,
        },
    ensures
        call_requires(CaptureLoop::step, (capture, event)),
{
}

} // verus!
