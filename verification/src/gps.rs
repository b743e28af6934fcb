//! The GPS receiver: where its bytes come from, and what is known from them.
use vstd::prelude::*;

use crate::config::{DurationStr, GpsConfig};

verus! {

/// The name of the port that needs no hardware.
pub const DUMMY_PORT: &'static str = "dummy";

/// Where the bytes of the receiver come from.
#[derive(Debug)]
pub enum GpsSource {
    /// A serial port.
    Serial { port: String, baud_rate: u32, timeout: DurationStr },
    /// Recorded messages.
    Dummy { timeout: DurationStr },
}

impl GpsSource {
    /// The source that a configuration stands for.
    pub fn new(config: GpsConfig) -> (source: GpsSource)
        ensures
            source == if config.port@ == DUMMY_PORT@ {
                GpsSource::Dummy { timeout: config.timeout }
            } else {
                GpsSource::Serial {
                    port: config.port,
                    baud_rate: config.baud_rate,
                    timeout: config.timeout,
                }
            },
    {
        if config.port == DUMMY_PORT.to_owned() {
            GpsSource::Dummy { timeout: config.timeout }
        } else {
            GpsSource::Serial {
                port: config.port,
                baud_rate: config.baud_rate,
                timeout: config.timeout,
            }
        }
    }
}

/// How a read from the receiver ended.
#[derive(Clone, Copy, Debug, PartialEq, Eq, Structural)]
pub enum ReadEnd {
    /// At the end of the input.
    Complete,
    /// After the timeout.
    TimedOut,
    /// With another error.
    Failed,
}

/// What the reader of the receiver does next.
#[derive(Clone, Copy, Debug, PartialEq, Eq, Structural)]
pub enum GpsAction {
    /// Look whether the reader has been told to end.
    CheckStop,
    /// Read into an empty buffer.
    Read,
    /// Parse the buffer.
    Parse,
    /// End, because the reader was told to.
    Exit,
    /// End, because the receiver is gone.
    Disconnect,
}

/// What the reader learns from what it did.
pub enum GpsEvent<T> {
    /// The reader has looked whether it has been told to end.
    StopChecked,
    /// How the read ended, and the length of the buffer then.
    Read { end: ReadEnd, length: usize },
    /// What the buffer says, if it could be parsed.
    Parsed(Option<T>),
}

impl<T> GpsEvent<T> {
    /// The event is an outcome of `action`.
    pub open spec fn answers(self, action: GpsAction) -> bool {
        match action {
            GpsAction::CheckStop => self is StopChecked,
            GpsAction::Read => self is Read,
            GpsAction::Parse => self is Parsed,
            GpsAction::Exit | GpsAction::Disconnect => false,
        }
    }

    /// The receiver is gone.
    pub open spec fn is_failure(self) -> bool {
        self matches GpsEvent::Read { end: ReadEnd::Failed, .. }
    }
}

/// What is known from a receiver, and the state of the reader that keeps it up to date.
pub struct Gps<T> {
    /// What the last message said that could be parsed.
    pub info: Option<T>,
    /// The reader has been told to end.
    pub stop: bool,
    /// What the reader does next.
    pub action: GpsAction,
}

impl<T> Gps<T> {
    /// The state after the current action came out as `event`. A receiver that is gone leaves
    /// nothing known.
    pub open spec fn after(self, event: GpsEvent<T>) -> Gps<T> {
        match event {
            GpsEvent::StopChecked => Gps {
                info: self.info,
                stop: self.stop,
                action: if self.stop {
                    GpsAction::Exit
                } else {
                    GpsAction::Read
                },
            },
            GpsEvent::Read { end: ReadEnd::Failed, .. } => Gps {
                info: None,
                stop: self.stop,
                action: GpsAction::Disconnect,
            },
            GpsEvent::Read { end: _, length } => Gps {
                info: self.info,
                stop: self.stop,
                action: if length == 0 {
                    GpsAction::CheckStop
                } else {
                    GpsAction::Parse
                },
            },
            GpsEvent::Parsed(parsed) => Gps {
                info: if parsed is Some {
                    parsed
                } else {
                    self.info
                },
                stop: self.stop,
                action: GpsAction::CheckStop,
            },
        }
    }

    /// The state after all of `events`.
    pub open spec fn after_all(self, events: Seq<GpsEvent<T>>) -> Gps<T>
        decreases events.len(),
    {
        if events.len() == 0 {
            self
        } else {
            self.after_all(events.drop_last()).after(events.last())
        }
    }

    /// Each of `events` is an outcome of the action that was due.
    pub open spec fn admits(self, events: Seq<GpsEvent<T>>) -> bool {
        forall|i: int|
            0 <= i < events.len() ==> (#[trigger] events[i]).answers(
                self.after_all(events.take(i)).action,
            )
    }

    /// A reader that knows nothing yet. Before each read, and before the first too, it looks
    /// whether it has been told to end.
    pub fn new() -> (gps: Gps<T>)
        ensures
            gps == (Gps { info: None::<T>, stop: false, action: GpsAction::CheckStop }),
    {
        Gps { info: None, stop: false, action: GpsAction::CheckStop }
    }

    /// Get the current info from the GPS
    pub fn current_info(&self) -> (info: Option<&T>)
        ensures
            match info {
                Some(current) => self.info == Some(*current),
                None => self.info is None,
            },
    {
        self.info.as_ref()
    }

    /// Tells the reader to end. It ends when it looks at that the next time.
    pub fn request_stop(&mut self)
        ensures
            *final(self) == (Gps { info: old(self).info, stop: true, action: old(self).action }),
    {
        self.stop = true;
    }

    /// Takes note of what the current action came out as, and tells the next action.
    pub fn step(&mut self, event: GpsEvent<T>) -> (action: GpsAction)
        requires
            event.answers(old(self).action),
        ensures
            *final(self) == old(self).after(event),
            action == final(self).action,
    {
        let action = match event {
            GpsEvent::StopChecked => if self.stop {
                GpsAction::Exit
            } else {
                GpsAction::Read
            },
            GpsEvent::Read { end: ReadEnd::Failed, .. } => {
                self.info = None;
                GpsAction::Disconnect
            },
            GpsEvent::Read { end: _, length } => if length == 0 {
                GpsAction::CheckStop
            } else {
                GpsAction::Parse
            },
            GpsEvent::Parsed(Some(info)) => {
                self.info = Some(info);
                GpsAction::CheckStop
            },
            GpsEvent::Parsed(None) => GpsAction::CheckStop,
        };
        self.action = action;
        action
    }
}

/// What the last message of `events` said that could be parsed, or `before` if there is none.
pub open spec fn last_parsed<T>(before: Option<T>, events: Seq<GpsEvent<T>>) -> Option<T>
    decreases events.len(),
{
    if events.len() == 0 {
        before
    } else {
        match events.last() {
            GpsEvent::Parsed(Some(info)) => Some(info),
            _ => last_parsed(before, events.drop_last()),
        }
    }
}

/// As long as the receiver is there, the last message that could be parsed is known, and neither
/// a timeout nor a message that cannot be parsed changes that.
pub proof fn law_last_message_is_known<T>(gps: Gps<T>, events: Seq<GpsEvent<T>>)
    requires
        forall|i: int| 0 <= i < events.len() ==> !(#[trigger] events[i]).is_failure(),
    ensures
        gps.after_all(events).info == last_parsed(gps.info, events),
    decreases events.len(),
{
    if events.len() > 0 {
        assert forall|i: int| 0 <= i < events.len() - 1 implies !(
        #[trigger] events.drop_last()[i]).is_failure() by {
            assert(!events[i].is_failure());
        }
        assert(!events[events.len() - 1].is_failure());
        law_last_message_is_known(gps, events.drop_last());
    }
}

/// Once the receiver is gone, nothing is known from it, and nothing more is read.
pub proof fn law_nothing_is_known_after_a_failure<T>(
    gps: Gps<T>,
    events: Seq<GpsEvent<T>>,
    i: int,
)
    requires
        gps.admits(events),
        0 <= i < events.len(),
        events[i].is_failure(),
    ensures
        i == events.len() - 1,
        gps.after_all(events).info is None,
        gps.after_all(events).action is Disconnect,
{
    assert(events.take(i + 1).drop_last() =~= events.take(i));
    if i + 1 < events.len() {
        assert(events[i + 1].answers(gps.after_all(events.take(i + 1)).action));
    } else {
        assert(events.take(i + 1) =~= events);
    }
}

/// A reader that has been told to end before it looks at that ends without reading, and what is
/// known stays as it is.
pub proof fn law_stop_is_seen_before_each_read<T>(gps: Gps<T>, events: Seq<GpsEvent<T>>)
    requires
        gps.stop,
        gps.action is CheckStop,
        gps.admits(events),
    ensures
        events.len() <= 1,
        gps.after_all(events).info == gps.info,
        events.len() == 1 ==> events[0] is StopChecked && gps.after_all(events).action is Exit,
{
    lemma_first_event(gps, events);
    if events.len() >= 2 {
        assert(events[1].answers(gps.after_all(events.take(1)).action));
    } else {
        assert(events.take(events.len() as int) =~= events);
    }
}

/// The first event answers the action that is due, and changes the state accordingly.
proof fn lemma_first_event<T>(gps: Gps<T>, events: Seq<GpsEvent<T>>)
    requires
        gps.admits(events),
    ensures
        events.len() >= 1 ==> events[0].answers(gps.action),
        events.len() >= 1 ==> gps.after_all(events.take(1)) == gps.after(events[0]),
        events.len() == 0 ==> gps.after_all(events) == gps,
{
    if events.len() >= 1 {
        assert(events[0].answers(gps.after_all(events.take(0)).action));
        assert(events.take(0) =~= Seq::<GpsEvent<T>>::empty());
        assert(events.take(1).drop_last() =~= events.take(0));
    }
}

/// A reader that is told to end while it is reading takes in that message and no other: it reads at
/// most once and parses at most once.
pub proof fn law_stop_allows_one_more_message<T>(gps: Gps<T>, events: Seq<GpsEvent<T>>)
    requires
        gps.stop,
        gps.admits(events),
    ensures
        events.len() <= 3,
        forall|i: int| 0 <= i < events.len() && #[trigger] events[i] is Read ==> i == 0,
        forall|i: int, j: int|
            0 <= i < events.len() && 0 <= j < events.len() && #[trigger] events[i] is Parsed
                && #[trigger] events[j] is Parsed ==> i == j,
        events.len() == 3 ==> events[0] is Read && events[1] is Parsed && events[2] is StopChecked
            && gps.after_all(events).action is Exit,
{
    lemma_first_event(gps, events);
    if events.len() >= 2 {
        assert(events[1].answers(gps.after_all(events.take(1)).action));
        assert(events.take(2).drop_last() =~= events.take(1));
    }
    if events.len() >= 3 {
        assert(events[2].answers(gps.after_all(events.take(2)).action));
        assert(events.take(3).drop_last() =~= events.take(2));
    }
    if events.len() >= 4 {
        assert(events[3].answers(gps.after_all(events.take(3)).action));
    } else {
        assert(events.take(events.len() as int) =~= events);
    }
}

/// Only the port of the name `dummy` stands for recorded messages. Any other is a serial port, and
/// the settings of the port are handed on.
pub proof fn law_only_the_dummy_port_is_a_dummy(config: GpsConfig, source: GpsSource)
    requires
        call_ensures(GpsSource::new, (config,), source),
    ensures
        source is Dummy <==> config.port@ == "dummy"@,
        source matches GpsSource::Dummy { timeout } ==> timeout == config.timeout,
        source matches GpsSource::Serial { port, baud_rate, timeout } ==> port@ == config.port@
            && baud_rate == config.baud_rate && timeout == config.timeout,
{
}

/// A new reader knows nothing, has not been told to end, and looks at that first.
pub proof fn law_new_readers_know_nothing<T>(gps: Gps<T>)
    requires
        call_ensures(Gps::<T>::new, (), gps),
    ensures
        gps.info is None,
        !gps.stop,
        gps.action is CheckStop,
{
}

/// What is told of a receiver is what is known from it.
pub proof fn law_current_info_is_what_is_known<T>(gps: Gps<T>, info: Option<&T>)
    requires
        call_ensures(Gps::<T>::current_info, (&gps,), info),
    ensures
        info is Some <==> gps.info is Some,
        info matches Some(told) ==> gps.info == Some(*told),
{
}

/// A reader that is told to end keeps what it knows and what it is doing.
pub proof fn law_stop_requests_change_nothing_else<T>(gps: &mut Gps<T>)
    requires
        call_ensures(Gps::<T>::request_stop, (gps,), ()),
    ensures
        final(gps).stop,
        final(gps).info == old(gps).info,
        final(gps).action == old(gps).action,
{
}

/// Before each read the reader ends if and only if it has been told to. What it knows stays.
pub proof fn law_reads_go_on_until_told_to_end<T>(gps: &mut Gps<T>, action: GpsAction)
    requires
        call_ensures(Gps::<T>::step, (gps, GpsEvent::<T>::StopChecked), action),
    ensures
        old(gps).stop ==> action is Exit,
        !old(gps).stop ==> action is Read,
        final(gps).action == action,
        final(gps).info == old(gps).info,
        final(gps).stop == old(gps).stop,
{
}

/// Whatever is known already and however a read ended, if it did not fail and brought bytes, they
/// are parsed, and if it brought none, the reader reads again unless it has been told to end. A read
/// alone changes nothing of what is known.
pub proof fn law_every_message_is_parsed<T>(
    gps: &mut Gps<T>,
    end: ReadEnd,
    length: usize,
    action: GpsAction,
)
    requires
        call_ensures(Gps::<T>::step, (gps, GpsEvent::<T>::Read { end, length }), action),
        end != ReadEnd::Failed,
    ensures
        length > 0 ==> action is Parse,
        length == 0 ==> action is CheckStop,
        final(gps).action == action,
        final(gps).info == old(gps).info,
        final(gps).stop == old(gps).stop,
{
}

/// A read that fails ends the reader, whatever it brought, and nothing is known from then on.
pub proof fn law_failed_reads_disconnect<T>(gps: &mut Gps<T>, length: usize, action: GpsAction)
    requires
        call_ensures(
            Gps::<T>::step,
            (gps, GpsEvent::<T>::Read { end: ReadEnd::Failed, length }),
            action,
        ),
    ensures
        action is Disconnect,
        final(gps).action == action,
        final(gps).info is None,
        final(gps).stop == old(gps).stop,
{
}

/// A message that could be parsed is what is known from then on, and one that could not be parsed
/// leaves what is known. After both the reader goes on as before the message.
pub proof fn law_parsed_messages_replace_what_is_known<T>(
    gps: &mut Gps<T>,
    parsed: Option<T>,
    action: GpsAction,
)
    requires
        call_ensures(Gps::<T>::step, (gps, GpsEvent::Parsed(parsed)), action),
    ensures
        parsed is Some ==> final(gps).info == parsed,
        parsed is None ==> final(gps).info == old(gps).info,
        action is CheckStop,
        final(gps).action == action,
        final(gps).stop == old(gps).stop,
{
}

/// The reader takes every outcome of what it is doing.
pub proof fn law_readers_take_every_outcome<T>(gps: &mut Gps<T>, event: GpsEvent<T>)
    requires
        match event {
            GpsEvent::StopChecked => old(gps).action is CheckStop,
            GpsEvent::Read { .. } => old(gps).action is Read,
            GpsEvent::Parsed(_) => old(gps).action is Parse,
        },
    ensures
        call_requires(Gps::<T>::step, (gps, event)),
{
}

} // verus!
