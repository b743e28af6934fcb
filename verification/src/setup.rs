//! How a camera is set up before the first capture, and which failures that survives.
use vstd::prelude::*;

use crate::config::{CameraConfig, Real, Roi, RoiConfig};
use crate::time::{TimeSpan, NANOS_PER_MILLI};

verus! {

/// The exposure of the first capture.
pub const FIRST_EXPOSURE_MILLIS: u64 = 100;

/// Bits per pixel of the images of a camera.
#[derive(Clone, Copy, Debug, PartialEq, Eq, Structural)]
pub enum PixelFormat {
    Bpp8,
    Bpp16,
}

/// The pixel format to set: eight bits if the configuration asks for them, sixteen bits for a
/// colour sensor, and whatever is set already for another sensor.
pub fn pixel_format(is_color: bool, pix8b: bool) -> (format: Option<PixelFormat>)
    ensures
        format == if pix8b {
            Some(PixelFormat::Bpp8)
        } else if is_color {
            Some(PixelFormat::Bpp16)
        } else {
            None
        },
{
    match (is_color, pix8b) {
        (_, true) => Some(PixelFormat::Bpp8),
        (true, false) => Some(PixelFormat::Bpp16),
        (false, false) => None,
    }
}

/// What ends the setup early.
#[derive(Clone, Copy, Debug, PartialEq, Eq, Structural)]
pub enum SetupError {
    /// The camera tells nothing about itself.
    Info,
    PixelFormat,
    Exposure,
    Gain,
}

/// What the setup does next.
#[derive(Clone, Copy, Debug, PartialEq, Eq, Structural)]
pub enum SetupAction {
    /// Ask the camera about itself.
    ReadInfo,
    SetPixelFormat(PixelFormat),
    SetTargetTemp(Real),
    SetRoi(Roi),
    /// Ask for the region of interest that is set now.
    ReadRoi,
    SetExposure(TimeSpan),
    SetGain(Real),
    Finish,
    Fail(SetupError),
}

/// What the setup learns from what it did.
#[derive(Clone, Copy, Debug, PartialEq, Eq, Structural)]
pub enum SetupEvent {
    /// The camera tells nothing about itself.
    NoInfo,
    /// What the camera tells about itself: whether its sensor has colours, if it says so.
    Info { color_sensor: Option<bool> },
    /// Whether the camera took the pixel format.
    PixelFormatSet(bool),
    TargetTempSet(bool),
    RoiSet(bool),
    RoiRead(Roi),
    ExposureSet(bool),
    GainSet(bool),
}

impl SetupEvent {
    /// The event is an outcome of `action`.
    pub open spec fn answers(self, action: SetupAction) -> bool {
        match action {
            SetupAction::ReadInfo => self is NoInfo || self is Info,
            SetupAction::SetPixelFormat(_) => self is PixelFormatSet,
            SetupAction::SetTargetTemp(_) => self is TargetTempSet,
            SetupAction::SetRoi(_) => self is RoiSet,
            SetupAction::ReadRoi => self is RoiRead,
            SetupAction::SetExposure(_) => self is ExposureSet,
            SetupAction::SetGain(_) => self is GainSet,
            SetupAction::Finish | SetupAction::Fail(_) => false,
        }
    }
}

/// What the configuration says about the setup of a camera.
#[derive(Clone, Copy, Debug, PartialEq, Eq, Structural)]
pub struct CameraSetup {
    pub pix8b: bool,
    pub target_temp: Real,
    pub change_roi: Option<RoiConfig>,
    pub gain: Option<Real>,
}

/// The exposure of the first capture.
pub open spec fn first_exposure() -> TimeSpan {
    TimeSpan { secs: 0, nanos: (FIRST_EXPOSURE_MILLIS * NANOS_PER_MILLI) as u32 }
}

impl CameraSetup {
    /// The setup that a configuration stands for.
    pub fn new(config: &CameraConfig) -> (setup: CameraSetup)
        ensures
            setup.pix8b == config.pix8b,
            setup.target_temp == config.target_temp,
            setup.change_roi == config.change_roi,
            setup.gain == config.gain,
    {
        CameraSetup {
            pix8b: config.pix8b,
            target_temp: config.target_temp,
            change_roi: config.change_roi,
            gain: config.gain,
        }
    }

    /// The region of interest can be set, if one is configured. Nothing before it in the setup
    /// depends on that.
    pub open spec fn can_set_roi(self) -> bool {
        self.change_roi matches Some(ranges) ==> ranges.well_formed()
    }

    /// What follows an action that came out as `event`.
    pub open spec fn after(self, event: SetupEvent) -> SetupAction {
        match event {
            SetupEvent::NoInfo => SetupAction::Fail(SetupError::Info),
            SetupEvent::Info { color_sensor } => if self.pix8b {
                SetupAction::SetPixelFormat(PixelFormat::Bpp8)
            } else if color_sensor == Some(true) {
                SetupAction::SetPixelFormat(PixelFormat::Bpp16)
            } else {
                SetupAction::SetTargetTemp(self.target_temp)
            },
            SetupEvent::PixelFormatSet(true) => SetupAction::SetTargetTemp(self.target_temp),
            SetupEvent::PixelFormatSet(false) => SetupAction::Fail(SetupError::PixelFormat),
            SetupEvent::TargetTempSet(_) => match self.change_roi {
                Some(ranges) => SetupAction::SetRoi(ranges.rectangle()),
                None => SetupAction::SetExposure(first_exposure()),
            },
            SetupEvent::RoiSet(true) => SetupAction::ReadRoi,
            SetupEvent::RoiSet(false) => SetupAction::SetExposure(first_exposure()),
            SetupEvent::RoiRead(_) => SetupAction::SetExposure(first_exposure()),
            SetupEvent::ExposureSet(true) => match self.gain {
                Some(gain) => SetupAction::SetGain(gain),
                None => SetupAction::Finish,
            },
            SetupEvent::ExposureSet(false) => SetupAction::Fail(SetupError::Exposure),
            SetupEvent::GainSet(true) => SetupAction::Finish,
            SetupEvent::GainSet(false) => SetupAction::Fail(SetupError::Gain),
        }
    }

    /// The action that is due after `events`.
    pub open spec fn due(self, events: Seq<SetupEvent>) -> SetupAction {
        if events.len() == 0 {
            SetupAction::ReadInfo
        } else {
            self.after(events.last())
        }
    }

    /// Each of `events` is an outcome of the action that was due.
    pub open spec fn admits(self, events: Seq<SetupEvent>) -> bool {
        forall|i: int|
            0 <= i < events.len() ==> (#[trigger] events[i]).answers(self.due(events.take(i)))
    }

    /// Tells what follows an action that came out as `event`. The setup starts with asking the
    /// camera about itself.
    pub fn next_action(self, event: SetupEvent) -> (action: SetupAction)
        requires
            event is TargetTempSet ==> self.can_set_roi(),
        ensures
            action == self.after(event),
    {
        let exposure = SetupAction::SetExposure(TimeSpan::from_millis(FIRST_EXPOSURE_MILLIS));
        proof {
            crate::time::law_total_determines_span(exposure->SetExposure_0, first_exposure());
        }
        match event {
            SetupEvent::NoInfo => SetupAction::Fail(SetupError::Info),
            SetupEvent::Info { color_sensor } => {
                let is_color = match color_sensor {
                    Some(color) => color,
                    None => false,
                };
                match pixel_format(is_color, self.pix8b) {
                    Some(format) => SetupAction::SetPixelFormat(format),
                    None => SetupAction::SetTargetTemp(self.target_temp),
                }
            },
            SetupEvent::PixelFormatSet(set) => if set {
                SetupAction::SetTargetTemp(self.target_temp)
            } else {
                SetupAction::Fail(SetupError::PixelFormat)
            },
            SetupEvent::TargetTempSet(_) => match self.change_roi {
                Some(ranges) => SetupAction::SetRoi(ranges.roi()),
                None => exposure,
            },
            SetupEvent::RoiSet(set) => if set {
                SetupAction::ReadRoi
            } else {
                exposure
            },
            SetupEvent::RoiRead(_) => exposure,
            SetupEvent::ExposureSet(set) => if set {
                match self.gain {
                    Some(gain) => SetupAction::SetGain(gain),
                    None => SetupAction::Finish,
                }
            } else {
                SetupAction::Fail(SetupError::Exposure)
            },
            SetupEvent::GainSet(set) => if set {
                SetupAction::Finish
            } else {
                SetupAction::Fail(SetupError::Gain)
            },
        }
    }

    /// Whether a region of interest that the camera took differs from the configured one.
    pub fn roi_differs(&self, actual: Roi) -> (differs: bool)
        requires
            self.can_set_roi(),
        ensures
            differs == (self.change_roi matches Some(ranges) && ranges.rectangle() != actual),
    {
        match self.change_roi {
            Some(ranges) => ranges.roi() != actual,
            None => false,
        }
    }
}

/// What of a setup was tried in vain.
pub open spec fn is_refused(event: SetupEvent) -> bool {
    ||| event is NoInfo
    ||| event == SetupEvent::PixelFormatSet(false)
    ||| event == SetupEvent::ExposureSet(false)
    ||| event == SetupEvent::GainSet(false)
}

/// The setup fails if and only if the camera tells nothing about itself or refuses the pixel
/// format, the exposure or the gain. It survives a refused target temperature or region of
/// interest.
pub proof fn law_setup_survives_small_failures(setup: CameraSetup, events: Seq<SetupEvent>)
    ensures
        setup.due(events) is Fail <==> events.len() > 0 && is_refused(events.last()),
{
}

/// What the setup does when nothing fails, for a sensor that says `color_sensor` of itself.
pub open spec fn setup_plan(setup: CameraSetup, color_sensor: Option<bool>) -> Seq<SetupAction> {
    let format = if setup.pix8b {
        seq![SetupAction::SetPixelFormat(PixelFormat::Bpp8)]
    } else if color_sensor == Some(true) {
        seq![SetupAction::SetPixelFormat(PixelFormat::Bpp16)]
    } else {
        seq![]
    };
    let roi = match setup.change_roi {
        Some(ranges) => seq![SetupAction::SetRoi(ranges.rectangle()), SetupAction::ReadRoi],
        None => seq![],
    };
    let gain = match setup.gain {
        Some(gain) => seq![SetupAction::SetGain(gain)],
        None => seq![],
    };
    format + seq![SetupAction::SetTargetTemp(setup.target_temp)] + roi + seq![
        SetupAction::SetExposure(first_exposure()),
    ] + gain + seq![SetupAction::Finish]
}

/// The event in which an action succeeds.
pub open spec fn success(action: SetupAction, actual: Roi) -> SetupEvent {
    match action {
        SetupAction::SetPixelFormat(_) => SetupEvent::PixelFormatSet(true),
        SetupAction::SetTargetTemp(_) => SetupEvent::TargetTempSet(true),
        SetupAction::SetRoi(_) => SetupEvent::RoiSet(true),
        SetupAction::ReadRoi => SetupEvent::RoiRead(actual),
        SetupAction::SetExposure(_) => SetupEvent::ExposureSet(true),
        SetupAction::SetGain(_) => SetupEvent::GainSet(true),
        _ => SetupEvent::NoInfo,
    }
}

/// A setup in which nothing fails sets the pixel format, the target temperature, the region of
/// interest, the exposure and the gain, in this order, each once and only where there is something
/// to set.
pub proof fn law_setup_order(
    setup: CameraSetup,
    color_sensor: Option<bool>,
    actual: Roi,
    k: int,
)
    requires
        0 <= k < setup_plan(setup, color_sensor).len() - 1,
    ensures
        setup.after(SetupEvent::Info { color_sensor }) == setup_plan(setup, color_sensor)[0],
        setup.after(success(setup_plan(setup, color_sensor)[k], actual)) == setup_plan(
            setup,
            color_sensor,
        )[k + 1],
{
}

/// A setup that is finished has set the exposure of the first capture, and nothing after it but the
/// gain.
pub proof fn law_finished_setup_has_exposure(setup: CameraSetup, events: Seq<SetupEvent>)
    requires
        setup.admits(events),
        setup.due(events) is Finish,
    ensures
        events.len() > 0,
        setup.gain is None ==> events.last() == SetupEvent::ExposureSet(true),
        setup.gain is Some ==> events.last() == SetupEvent::GainSet(true) && events.len() > 1
            && events[events.len() - 2] == SetupEvent::ExposureSet(true),
{
    let n = events.len() as int;
    assert(events[n - 1].answers(setup.due(events.take(n - 1))));
    if n > 1 {
        assert(events.take(n - 1).last() == events[n - 2]);
    }
}

/// A setup holds what the configuration says.
pub proof fn law_setups_follow_the_configuration(config: CameraConfig, setup: CameraSetup)
    requires
        call_ensures(CameraSetup::new, (&config,), setup),
    ensures
        setup.pix8b == config.pix8b,
        setup.target_temp == config.target_temp,
        setup.change_roi == config.change_roi,
        setup.gain == config.gain,
{
}

/// Eight bits are set whenever the configuration asks for them, sixteen for a colour sensor
/// otherwise, and nothing for any other sensor.
pub proof fn law_pixel_formats_follow_the_sensor(
    is_color: bool,
    pix8b: bool,
    format: Option<PixelFormat>,
)
    requires
        call_ensures(pixel_format, (is_color, pix8b), format),
    ensures
        pix8b ==> format == Some(PixelFormat::Bpp8),
        !pix8b && is_color ==> format == Some(PixelFormat::Bpp16),
        !pix8b && !is_color ==> format is None,
{
}

/// What a camera says of itself decides the pixel format that is set, and without one the setup
/// goes on with the target temperature. A camera that says nothing of itself is not set up.
pub proof fn law_sensors_decide_the_format(
    setup: CameraSetup,
    color_sensor: Option<bool>,
    format: Option<PixelFormat>,
    told: SetupAction,
    untold: SetupAction,
)
    requires
        call_ensures(
            CameraSetup::next_action,
            (setup, SetupEvent::Info { color_sensor }),
            told,
        ),
        call_ensures(CameraSetup::next_action, (setup, SetupEvent::NoInfo), untold),
        call_ensures(pixel_format, (color_sensor == Some(true), setup.pix8b), format),
    ensures
        format matches Some(format) ==> told == SetupAction::SetPixelFormat(format),
        format is None ==> told == SetupAction::SetTargetTemp(setup.target_temp),
        untold == SetupAction::Fail(SetupError::Info),
{
}

/// A refused pixel format ends the setup. A refused target temperature does not: the region of
/// interest comes next if one is configured, and the exposure if none is.
pub proof fn law_temperature_comes_before_the_region(
    setup: CameraSetup,
    answer: bool,
    formatted: SetupAction,
    cooled: SetupAction,
)
    requires
        call_ensures(
            CameraSetup::next_action,
            (setup, SetupEvent::PixelFormatSet(answer)),
            formatted,
        ),
        call_ensures(CameraSetup::next_action, (setup, SetupEvent::TargetTempSet(answer)), cooled),
        setup.change_roi matches Some(ranges) ==> ranges.x.min <= ranges.x.max && ranges.y.min
            <= ranges.y.max,
    ensures
        answer ==> formatted == SetupAction::SetTargetTemp(setup.target_temp),
        !answer ==> formatted == SetupAction::Fail(SetupError::PixelFormat),
        setup.change_roi is None ==> cooled is SetExposure,
        setup.change_roi matches Some(ranges) ==> {
            &&& cooled matches SetupAction::SetRoi(roi)
            &&& roi.x_min == ranges.x.min
            &&& roi.y_min == ranges.y.min
            &&& roi.x_min + roi.width == ranges.x.max
            &&& roi.y_min + roi.height == ranges.y.max
        },
{
}

/// A region of interest that was set is read back, and whatever came of it the exposure is set, to a
/// tenth of a second.
pub proof fn law_first_exposure_is_a_tenth_of_a_second(
    setup: CameraSetup,
    answer: bool,
    actual: Roi,
    set: SetupAction,
    read: SetupAction,
    cooled: SetupAction,
)
    requires
        call_ensures(CameraSetup::next_action, (setup, SetupEvent::RoiSet(answer)), set),
        call_ensures(CameraSetup::next_action, (setup, SetupEvent::RoiRead(actual)), read),
        call_ensures(CameraSetup::next_action, (setup, SetupEvent::TargetTempSet(answer)), cooled),
    ensures
        answer ==> set is ReadRoi,
        !answer ==> set == read,
        read matches SetupAction::SetExposure(exposure) && exposure.secs == 0 && exposure.nanos
            == 100_000_000,
        setup.change_roi is None ==> cooled == read,
{
}

/// A refused exposure ends the setup. The gain comes next if one is configured, as it is configured,
/// and a refused gain ends the setup too. Without either refusal the setup is finished.
pub proof fn law_gain_comes_last(
    setup: CameraSetup,
    answer: bool,
    exposed: SetupAction,
    gained: SetupAction,
)
    requires
        call_ensures(CameraSetup::next_action, (setup, SetupEvent::ExposureSet(answer)), exposed),
        call_ensures(CameraSetup::next_action, (setup, SetupEvent::GainSet(answer)), gained),
    ensures
        !answer ==> exposed == SetupAction::Fail(SetupError::Exposure),
        answer && setup.gain is None ==> exposed is Finish,
        answer && setup.gain is Some ==> exposed == SetupAction::SetGain(setup.gain->Some_0),
        answer ==> gained is Finish,
        !answer ==> gained == SetupAction::Fail(SetupError::Gain),
{
}

/// A region of interest differs from the configured one if and only if a corner or a side does.
pub proof fn law_regions_differ_by_corner_or_side(
    setup: CameraSetup,
    ranges: RoiConfig,
    actual: Roi,
    differs: bool,
)
    requires
        call_ensures(CameraSetup::roi_differs, (&setup, actual), differs),
        ranges.x.min <= ranges.x.max,
        ranges.y.min <= ranges.y.max,
    ensures
        setup.change_roi is None ==> !differs,
        setup.change_roi == Some(ranges) ==> (differs <==> actual.x_min != ranges.x.min
            || actual.y_min != ranges.y.min || actual.width != ranges.x.max - ranges.x.min
            || actual.height != ranges.y.max - ranges.y.min),
{
}

/// The setup goes on after every outcome, whatever ranges are configured, but for the step to the
/// region of interest.
pub proof fn law_setups_take_every_outcome(setup: CameraSetup, event: SetupEvent)
    requires
        event is TargetTempSet ==> (setup.change_roi matches Some(ranges) ==> ranges.x.min
            <= ranges.x.max && ranges.y.min <= ranges.y.max),
    ensures
        call_requires(CameraSetup::next_action, (setup, event)),
{
}

} // verus!
