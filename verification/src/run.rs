//! The station as a whole: the stages of a run, what follows a run, and the temperature monitor.
use vstd::prelude::*;

use crate::config::{CameraConfig, Real, TargetVal};
use crate::time::{TimeSpan, NANOS_PER_SEC};

verus! {

/// How long the station waits before it tries again after a run.
pub const RECOVERY_SECS: u64 = 1;

/// What the station does after a run.
#[derive(Clone, Copy, Debug, PartialEq, Eq, Structural)]
pub enum AfterRun {
    /// Wait, and start another run.
    Recover { delay: TimeSpan },
    Exit,
}

/// What follows a run, whatever came of it. The station goes on until it is interrupted.
pub fn after_run(still_running: bool) -> (next: AfterRun)
    ensures
        match next {
            AfterRun::Recover { delay } => still_running && delay.well_formed() && delay.total()
                == RECOVERY_SECS * NANOS_PER_SEC,
            AfterRun::Exit => !still_running,
        },
{
    if still_running {
        AfterRun::Recover { delay: TimeSpan::from_secs(RECOVERY_SECS) }
    } else {
        AfterRun::Exit
    }
}

/// The exit code when the requested camera is not there.
pub const NO_CAMERA_CODE: i32 = 1;

/// What ends a run early.
#[derive(Clone, Copy, Debug, PartialEq, Eq, Structural)]
pub enum RunError {
    /// The driver failed to list or to connect its devices.
    Driver,
    Setup,
    /// The GPS receiver could not be opened.
    Gps,
    /// The camera has no exposure.
    NoExposureProperty,
    /// The camera tells no shortest exposure.
    NoMinimumExposure,
    /// A task of the run failed.
    Task,
}

/// What a run does next.
#[derive(Clone, Copy, Debug, PartialEq, Eq, Structural)]
pub enum RunAction {
    Connect,
    SetUp,
    OpenGps,
    /// Start the temperature monitor, if the camera can be asked for its temperature.
    StartMonitor,
    /// Ask the camera for its shortest exposure.
    ReadExposureRange,
    /// Run the capture loop, the temperature monitor and the save loop until one of them ends.
    Capture,
    Finish,
    Fail(RunError),
    /// End the whole process.
    ExitProcess { code: i32 },
}

/// What a run learns from what it did.
#[derive(Clone, Copy, Debug, PartialEq, Eq, Structural)]
pub enum RunEvent {
    /// Whether the requested camera is there.
    Searched { found: bool },
    SearchFailed,
    SetUp(bool),
    GpsOpened(bool),
    MonitorStarted,
    /// The camera has no exposure.
    NoExposure,
    /// The shortest exposure, if the camera tells it.
    MinimumExposure(Option<TimeSpan>),
    /// Whether the task that ended first ended without an error.
    TaskEnded(bool),
}

impl RunEvent {
    /// The event is an outcome of `action`.
    pub open spec fn answers(self, action: RunAction) -> bool {
        match action {
            RunAction::Connect => self is Searched || self is SearchFailed,
            RunAction::SetUp => self is SetUp,
            RunAction::OpenGps => self is GpsOpened,
            RunAction::StartMonitor => self is MonitorStarted,
            RunAction::ReadExposureRange => self is NoExposure || self is MinimumExposure,
            RunAction::Capture => self is TaskEnded,
            RunAction::Finish | RunAction::Fail(_) | RunAction::ExitProcess { .. } => false,
        }
    }
}

/// What the stages of a run depend on.
#[derive(Clone, Copy, Debug, PartialEq, Eq, Structural)]
pub struct RunStages {
    /// A GPS receiver is configured.
    pub has_gps: bool,
}

impl RunStages {
    /// The stages for a configuration.
    pub fn new(config: &CameraConfig) -> (stages: RunStages)
        ensures
            stages.has_gps == (config.gps is Some),
    {
        RunStages { has_gps: config.gps.is_some() }
    }

    /// What follows an action that came out as `event`.
    pub open spec fn after(self, event: RunEvent) -> RunAction {
        match event {
            RunEvent::Searched { found: true } => RunAction::SetUp,
            RunEvent::Searched { found: false } => RunAction::ExitProcess { code: NO_CAMERA_CODE },
            RunEvent::SearchFailed => RunAction::Fail(RunError::Driver),
            RunEvent::SetUp(true) => if self.has_gps {
                RunAction::OpenGps
            } else {
                RunAction::StartMonitor
            },
            RunEvent::SetUp(false) => RunAction::Fail(RunError::Setup),
            RunEvent::GpsOpened(true) => RunAction::StartMonitor,
            RunEvent::GpsOpened(false) => RunAction::Fail(RunError::Gps),
            RunEvent::MonitorStarted => RunAction::ReadExposureRange,
            RunEvent::NoExposure => RunAction::Fail(RunError::NoExposureProperty),
            RunEvent::MinimumExposure(Some(_)) => RunAction::Capture,
            RunEvent::MinimumExposure(None) => RunAction::Fail(RunError::NoMinimumExposure),
            RunEvent::TaskEnded(true) => RunAction::Finish,
            RunEvent::TaskEnded(false) => RunAction::Fail(RunError::Task),
        }
    }

    /// The action that is due after `events`.
    pub open spec fn due(self, events: Seq<RunEvent>) -> RunAction {
        if events.len() == 0 {
            RunAction::Connect
        } else {
            self.after(events.last())
        }
    }

    /// Each of `events` is an outcome of the action that was due.
    pub open spec fn admits(self, events: Seq<RunEvent>) -> bool {
        forall|i: int|
            0 <= i < events.len() ==> (#[trigger] events[i]).answers(self.due(events.take(i)))
    }

    /// Tells what follows an action that came out as `event`. A run starts with connecting to a
    /// camera.
    pub fn next_action(self, event: RunEvent) -> (action: RunAction)
        ensures
            action == self.after(event),
    {
        match event {
            RunEvent::Searched { found } => if found {
                RunAction::SetUp
            } else {
                RunAction::ExitProcess { code: NO_CAMERA_CODE }
            },
            RunEvent::SearchFailed => RunAction::Fail(RunError::Driver),
            RunEvent::SetUp(done) => if !done {
                RunAction::Fail(RunError::Setup)
            } else if self.has_gps {
                RunAction::OpenGps
            } else {
                RunAction::StartMonitor
            },
            RunEvent::GpsOpened(opened) => if opened {
                RunAction::StartMonitor
            } else {
                RunAction::Fail(RunError::Gps)
            },
            RunEvent::MonitorStarted => RunAction::ReadExposureRange,
            RunEvent::NoExposure => RunAction::Fail(RunError::NoExposureProperty),
            RunEvent::MinimumExposure(minimum) => match minimum {
                Some(_) => RunAction::Capture,
                None => RunAction::Fail(RunError::NoMinimumExposure),
            },
            RunEvent::TaskEnded(well) => if well {
                RunAction::Finish
            } else {
                RunAction::Fail(RunError::Task)
            },
        }
    }
}

/// The process is ended by a run if and only if the requested camera is not there, and then at the
/// first stage.
pub proof fn law_only_a_missing_camera_ends_the_process(stages: RunStages, events: Seq<RunEvent>)
    requires
        stages.admits(events),
    ensures
        stages.due(events) is ExitProcess <==> events == seq![RunEvent::Searched { found: false }],
{
    let n = events.len() as int;
    if n > 0 {
        assert(events[n - 1].answers(stages.due(events.take(n - 1))));
        if stages.due(events) is ExitProcess {
            if n > 1 {
                assert(events.take(n - 1).last() == events[n - 2]);
            }
            assert(events =~= seq![RunEvent::Searched { found: false }]);
        }
    }
}

/// Images are captured only with a camera that was found and set up, and with a GPS receiver that
/// was opened if one is configured.
pub proof fn law_capture_comes_after_all_stages(stages: RunStages, events: Seq<RunEvent>)
    requires
        stages.admits(events),
        stages.due(events) is Capture,
    ensures
        events.len() == if stages.has_gps {
            5nat
        } else {
            4nat
        },
        events[0] == (RunEvent::Searched { found: true }),
        events[1] == RunEvent::SetUp(true),
        stages.has_gps ==> events[2] == RunEvent::GpsOpened(true),
        events[events.len() - 2] is MonitorStarted,
        events.last() matches RunEvent::MinimumExposure(Some(_)),
{
    let n = events.len() as int;
    assert(events[n - 1].answers(stages.due(events.take(n - 1))));
    assert(n > 1);
    assert(events.take(n - 1).last() == events[n - 2]);
    assert(events[n - 2].answers(stages.due(events.take(n - 2))));
    assert(n > 2);
    assert(events.take(n - 2).last() == events[n - 3]);
    assert(events[n - 3].answers(stages.due(events.take(n - 3))));
    assert(n > 3);
    assert(events.take(n - 3).last() == events[n - 4]);
    assert(events[n - 4].answers(stages.due(events.take(n - 4))));
    if n > 4 {
        assert(events.take(n - 4).last() == events[n - 5]);
        assert(events[n - 5].answers(stages.due(events.take(n - 5))));
        if n > 5 {
            assert(events.take(n - 5).last() == events[n - 6]);
        }
    }
}

/// So many of the brightest pixels do not count for the exposure.
pub const PIXEL_EXCLUSION: u32 = 100;

/// What the calculation of the optimum exposure depends on.
#[derive(Clone, Copy, Debug, PartialEq, Eq, Structural)]
pub struct ExposureSettings {
    /// The percentile of the pixels that is to be as bright as the target, in percent.
    pub percentile: Real,
    pub target: TargetVal,
    pub uncertainty: TargetVal,
    pub pixel_exclusion: u32,
    pub min_exposure: TimeSpan,
    pub max_exposure: TimeSpan,
    pub max_bin: u16,
}

impl ExposureSettings {
    /// The settings for a configuration and a camera with this shortest exposure. Of the largest
    /// bin the sixteen low bits count.
    pub fn new(config: &CameraConfig, min_exposure: TimeSpan) -> (settings: ExposureSettings)
        ensures
            settings.percentile == config.percentile,
            settings.target == config.target_val,
            settings.uncertainty == config.target_uncertainty,
            settings.pixel_exclusion == PIXEL_EXCLUSION,
            settings.min_exposure == min_exposure,
            settings.max_exposure == config.max_exposure.0,
            settings.max_bin == config.max_bin % 65_536,
    {
        let raised: i64 = if config.max_bin < 0 {
            config.max_bin as i64 + 4_294_967_296
        } else {
            config.max_bin as i64
        };
        let low: i64 = raised % 65_536;
        ExposureSettings {
            percentile: config.percentile,
            target: config.target_val,
            uncertainty: config.target_uncertainty,
            pixel_exclusion: PIXEL_EXCLUSION,
            min_exposure,
            max_exposure: config.max_exposure.0,
            max_bin: low as u16,
        }
    }
}

/// The bits of -273.15, which stands for a temperature that the camera does not tell.
pub const UNKNOWN_TEMPERATURE_BITS: u64 = 0xC071_1266_6666_6666;

/// Stands for a cooler power that the camera does not tell.
pub const UNKNOWN_COOLER_POWER: i64 = -1;

/// What the temperature monitor reports.
#[derive(Clone, Copy, Debug, PartialEq, Eq, Structural)]
pub struct TemperatureReport {
    /// In degrees Celsius.
    pub temperature: Real,
    /// In percent.
    pub cooler_power: i64,
}

impl TemperatureReport {
    /// The report for what the camera tells.
    pub fn new(temperature: Option<Real>, cooler_power: Option<i64>) -> (report: TemperatureReport)
        ensures
            report.temperature == match temperature {
                Some(told) => told,
                None => Real { bits: UNKNOWN_TEMPERATURE_BITS },
            },
            report.cooler_power == match cooler_power {
                Some(told) => told,
                None => UNKNOWN_COOLER_POWER,
            },
    {
        TemperatureReport {
            temperature: match temperature {
                Some(told) => told,
                None => Real { bits: UNKNOWN_TEMPERATURE_BITS },
            },
            cooler_power: match cooler_power {
                Some(told) => told,
                None => UNKNOWN_COOLER_POWER,
            },
        }
    }
}

/// What the temperature monitor does next.
#[derive(Clone, Copy, Debug, PartialEq, Eq, Structural)]
pub enum MonitorAction {
    /// Wait for a period, and report after that.
    Report,
    /// Cancel the capture that is going on, and end.
    CancelCapture,
}

/// What the temperature monitor does when it has looked at the flags of the station and its tasks.
pub fn monitor_action(running: bool, task_run: bool) -> (action: MonitorAction)
    ensures
        action == if running && task_run {
            MonitorAction::Report
        } else {
            MonitorAction::CancelCapture
        },
{
    if task_run && running {
        MonitorAction::Report
    } else {
        MonitorAction::CancelCapture
    }
}

/// After a run the station waits for a second and starts another, as long as it has not been
/// interrupted.
pub proof fn law_station_goes_on_until_interrupted(still_running: bool, next: AfterRun)
    requires
        call_ensures(after_run, (still_running,), next),
    ensures
        next is Exit <==> !still_running,
        next matches AfterRun::Recover { delay } ==> delay.secs * 1_000_000_000 + delay.nanos
            == 1_000_000_000 && delay.nanos < 1_000_000_000,
{
}

/// A run has a stage for the receiver if and only if one is configured.
pub proof fn law_receivers_have_a_stage(config: CameraConfig, stages: RunStages)
    requires
        call_ensures(RunStages::new, (&config,), stages),
    ensures
        stages.has_gps <==> config.gps is Some,
{
}

/// A camera that was found is set up. One that is not there ends the process with code 1, and a
/// driver that fails ends the run.
pub proof fn law_cameras_are_looked_for_first(
    stages: RunStages,
    found: bool,
    searched: RunAction,
    failed: RunAction,
)
    requires
        call_ensures(RunStages::next_action, (stages, RunEvent::Searched { found }), searched),
        call_ensures(RunStages::next_action, (stages, RunEvent::SearchFailed), failed),
    ensures
        found ==> searched is SetUp,
        !found ==> searched == (RunAction::ExitProcess { code: 1 }),
        failed == RunAction::Fail(RunError::Driver),
{
}

/// After the setup the receiver is opened if there is one, and then the monitor is started. A failed
/// setup and a receiver that cannot be opened end the run.
pub proof fn law_receivers_are_opened_after_the_setup(
    stages: RunStages,
    done: bool,
    set_up: RunAction,
    opened: RunAction,
)
    requires
        call_ensures(RunStages::next_action, (stages, RunEvent::SetUp(done)), set_up),
        call_ensures(RunStages::next_action, (stages, RunEvent::GpsOpened(done)), opened),
    ensures
        !done ==> set_up == RunAction::Fail(RunError::Setup),
        !done ==> opened == RunAction::Fail(RunError::Gps),
        done ==> opened is StartMonitor,
        done && stages.has_gps ==> set_up is OpenGps,
        done && !stages.has_gps ==> set_up is StartMonitor,
{
}

/// Images are captured once the shortest exposure is known, and the run ends as the task that ended
/// first did.
pub proof fn law_captures_need_the_shortest_exposure(
    stages: RunStages,
    minimum: Option<TimeSpan>,
    well: bool,
    monitored: RunAction,
    missing: RunAction,
    asked: RunAction,
    ended: RunAction,
)
    requires
        call_ensures(RunStages::next_action, (stages, RunEvent::MonitorStarted), monitored),
        call_ensures(RunStages::next_action, (stages, RunEvent::NoExposure), missing),
        call_ensures(RunStages::next_action, (stages, RunEvent::MinimumExposure(minimum)), asked),
        call_ensures(RunStages::next_action, (stages, RunEvent::TaskEnded(well)), ended),
    ensures
        monitored is ReadExposureRange,
        missing == RunAction::Fail(RunError::NoExposureProperty),
        minimum is Some ==> asked is Capture,
        minimum is None ==> asked == RunAction::Fail(RunError::NoMinimumExposure),
        well ==> ended is Finish,
        !well ==> ended == RunAction::Fail(RunError::Task),
{
}

/// The settings of the exposure are those of the configuration, with the shortest exposure of the
/// camera. Of the largest bin 65536 and its multiples are left out.
pub proof fn law_exposure_settings_follow_the_configuration(
    config: CameraConfig,
    min_exposure: TimeSpan,
    settings: ExposureSettings,
)
    requires
        call_ensures(ExposureSettings::new, (&config, min_exposure), settings),
    ensures
        settings.percentile == config.percentile,
        settings.target == config.target_val,
        settings.uncertainty == config.target_uncertainty,
        settings.pixel_exclusion == 100,
        settings.min_exposure == min_exposure,
        settings.max_exposure == config.max_exposure.0,
        (config.max_bin - settings.max_bin) % 65_536 == 0,
        0 <= config.max_bin < 65_536 ==> settings.max_bin == config.max_bin,
{
}

/// A report tells what the camera tells, each value by itself, and -273.15 degrees and -1 percent
/// for what it does not.
pub proof fn law_reports_tell_what_is_told(
    temperature: Option<Real>,
    cooler_power: Option<i64>,
    report: TemperatureReport,
)
    requires
        call_ensures(TemperatureReport::new, (temperature, cooler_power), report),
    ensures
        temperature matches Some(told) ==> report.temperature == told,
        temperature is None ==> report.temperature.bits == 0xC071_1266_6666_6666,
        cooler_power matches Some(told) ==> report.cooler_power == told,
        cooler_power is None ==> report.cooler_power == -1,
{
}

/// The monitor reports as long as both flags are up, and otherwise cancels the capture.
pub proof fn law_both_flags_keep_the_monitor_going(
    running: bool,
    task_run: bool,
    action: MonitorAction,
)
    requires
        call_ensures(monitor_action, (running, task_run), action),
    ensures
        action is Report <==> running && task_run,
{
}

} // verus!
