//! What the configuration file of a capture station holds, and the rules by which its nodes
//! and values are read.
use vstd::arithmetic::div_mod::lemma_div_is_ordered_by_denominator;
use vstd::prelude::*;

use crate::time::{TimeSpan, NANOS_PER_SEC};

verus! {

/// A floating-point setting, kept as the bits of its IEEE 754 double. The library hands such
/// settings on and never computes with them.
#[derive(Clone, Copy, Debug, PartialEq, Eq, Structural)]
pub struct Real {
    pub bits: u64,
}

/// What `duration_string::DurationString` makes of a text: the seconds and nanoseconds that it
/// stands for, or the message of the error.
pub uninterp spec fn parsed_duration(text: Seq<char>) -> Result<(u64, u32), Seq<char>>;

/// Parses a text as a `duration_string::DurationString` and hands out its seconds and
/// nanoseconds, or the message of the error. Of the grammar nothing is claimed here: the result
/// is what `parsed_duration` names. The nanoseconds are those below a second.
#[verifier::external_body]
fn parse_duration(text: &str) -> (parsed: Result<(u64, u32), String>)
    ensures
        match parsed {
            Ok(time) => parsed_duration(text@) is Ok && parsed_duration(text@)->Ok_0 == time
                && time.1 < NANOS_PER_SEC,
            Err(message) => parsed_duration(text@) is Err && parsed_duration(text@)->Err_0
                == message@,
        },
{
    match text.parse::<duration_string::DurationString>() {
        Ok(duration) => Ok((duration.as_secs(), duration.subsec_nanos())),
        Err(error) => Err(error.to_string()),
    }
}

/// A number in decimal digits.
pub open spec fn decimal(number: nat) -> Seq<char>
    decreases number,
{
    let last = (48 + number % 10) as u8 as char;
    if number < 10 {
        seq![last]
    } else {
        decimal(number / 10).push(last)
    }
}

/// The largest unit of which a length of time is a multiple: the nanoseconds of the unit and its
/// name. A year has 31556926 seconds.
pub open spec fn largest_unit(time: TimeSpan) -> (int, Seq<char>) {
    let total = time.total();
    if total % 31_556_926_000_000_000 == 0 {
        (31_556_926_000_000_000, "y"@)
    } else if total % 604_800_000_000_000 == 0 {
        (604_800_000_000_000, "w"@)
    } else if total % 86_400_000_000_000 == 0 {
        (86_400_000_000_000, "d"@)
    } else if total % 3_600_000_000_000 == 0 {
        (3_600_000_000_000, "h"@)
    } else if total % 60_000_000_000 == 0 {
        (60_000_000_000, "m"@)
    } else if total % 1_000_000_000 == 0 {
        (1_000_000_000, "s"@)
    } else if total % 1_000_000 == 0 {
        (1_000_000, "ms"@)
    } else if total % 1_000 == 0 {
        (1_000, "us"@)
    } else {
        (1, "ns"@)
    }
}

/// How many of its largest unit a length of time has.
pub open spec fn unit_count(time: TimeSpan) -> nat {
    (time.total() / largest_unit(time).0) as nat
}

/// The text for a length of time: a number of its largest unit, and the name of the unit.
pub open spec fn duration_text(time: TimeSpan) -> Seq<char> {
    decimal(unit_count(time)) + largest_unit(time).1
}

/// A length of time that can be read back from its text: the number in it fits in 64 bits.
pub open spec fn is_readable(time: TimeSpan) -> bool {
    unit_count(time) <= u64::MAX
}

/// Writes seconds and nanoseconds with the `Display` of `duration_string::DurationString`: one
/// number of the largest unit, and the unit. Parsing the text as a `DurationString` gives the same
/// time again, where the number in it fits in 64 bits, and fails where it does not.
#[verifier::external_body]
fn format_duration(secs: u64, nanos: u32) -> (text: String)
    requires
        nanos < NANOS_PER_SEC,
    ensures
        text@ == duration_text(TimeSpan { secs, nanos }),
        if is_readable(TimeSpan { secs, nanos }) {
            parsed_duration(text@) is Ok && parsed_duration(text@)->Ok_0 == (secs, nanos)
        } else {
            parsed_duration(text@) is Err
        },
{
    duration_string::DurationString::new(std::time::Duration::new(secs, nanos)).to_string()
}

/// The value of an argument or a property of a node.
#[derive(Clone, Debug)]
pub enum NodeValue {
    Text(String),
    /// A number, a truth value or nothing.
    Other,
}

/// Why a value is no length of time.
#[derive(Clone, Debug)]
pub enum ValueError {
    /// It is no text.
    NotText,
    /// It is a text that cannot be parsed. The message is that of the parser.
    Custom(String),
}

/// A length of time that the configuration gives as a text such as `1m 30s`.
#[derive(Clone, Copy, Debug, PartialEq, Eq, Structural)]
pub struct DurationStr(pub TimeSpan);

impl DurationStr {
    /// Reads a length of time from a value, which has to be a text.
    pub fn from_kdl_value(value: &NodeValue) -> (result: Result<DurationStr, ValueError>)
        ensures
            match value {
                NodeValue::Other => result is Err && result->Err_0 is NotText,
                NodeValue::Text(text) => match parsed_duration(text@) {
                    Ok((secs, nanos)) => {
                        &&& result is Ok
                        &&& result->Ok_0 == DurationStr(TimeSpan { secs, nanos })
                        &&& result->Ok_0.0.well_formed()
                    },
                    Err(message) => result matches Err(ValueError::Custom(told)) && told@
                        == message,
                },
            },
    {
        match value {
            NodeValue::Text(text) => DurationStr::from_parsed(parse_duration(text.as_str())),
            NodeValue::Other => Err(ValueError::NotText),
        }
    }

    /// The length of time for parsed seconds and nanoseconds, or the message of the parser.
    pub fn from_parsed(parsed: Result<(u64, u32), String>) -> (result: Result<
        DurationStr,
        ValueError,
    >)
        ensures
            match parsed {
                Ok((secs, nanos)) => result is Ok && result->Ok_0 == DurationStr(
                    TimeSpan { secs, nanos },
                ),
                Err(message) => result is Err && result->Err_0 == ValueError::Custom(message),
            },
    {
        match parsed {
            Ok((secs, nanos)) => Ok(DurationStr(TimeSpan { secs, nanos })),
            Err(message) => Err(ValueError::Custom(message)),
        }
    }

    /// The text that stands for this length of time. Reading the text gives the same length
    /// again, unless the number in it does not fit in 64 bits.
    pub fn to_kdl_value(&self) -> (value: NodeValue)
        requires
            self.0.well_formed(),
        ensures
            value matches NodeValue::Text(text) && text@ == duration_text(self.0) && if is_readable(self.0) {
                parsed_duration(text@) is Ok && parsed_duration(text@)->Ok_0 == (
                    self.0.secs,
                    self.0.nanos,
                )
            } else {
                parsed_duration(text@) is Err
            },
    {
        NodeValue::Text(format_duration(self.0.secs, self.0.nanos))
    }
}

/// Every length of time in whole seconds, and every one of less than 584 years, can be read back
/// from its text.
pub proof fn law_usual_durations_are_readable(time: TimeSpan)
    requires
        time.well_formed(),
        time.nanos == 0 || time.secs <= 584 * 365 * 86_400,
    ensures
        is_readable(time),
{
    let unit = largest_unit(time).0;
    if time.nanos == 0 {
        lemma_div_is_ordered_by_denominator(time.total(), NANOS_PER_SEC as int, unit);
    } else {
        lemma_div_is_ordered_by_denominator(time.total(), 1, unit);
    }
}

/// A brightness that the configuration gives on the scale of a sixteen-bit pixel, as a
/// fraction of the full scale.
#[derive(Clone, Copy, Debug, PartialEq, Eq, Structural)]
pub struct TargetVal(pub Real);

/// The configuration of a capture station.
#[derive(Clone, Debug)]
pub struct CameraConfig {
    /// Name of the camera to use. Without it the first camera is taken.
    pub camera: Option<String>,
    /// Time between two saved images.
    pub cadence: DurationStr,
    pub max_exposure: DurationStr,
    pub percentile: Real,
    pub max_bin: i32,
    pub target_val: TargetVal,
    pub target_uncertainty: TargetVal,
    pub gain: Option<Real>,
    pub target_temp: Real,
    pub save_fits: bool,
    pub save_png: bool,
    /// Capture with eight bits per pixel.
    pub pix8b: bool,
    pub change_roi: Option<RoiConfig>,
    pub log: LogConfig,
    pub gps: Option<GpsConfig>,
    pub scaler: ScalerConfig,
}

/// A range of pixel coordinates along one axis.
#[derive(Clone, Copy, Debug, PartialEq, Eq, Structural)]
pub struct Range {
    pub min: u16,
    pub max: u16,
}

/// The region of interest of the sensor.
#[derive(Clone, Copy, Debug, PartialEq, Eq, Structural)]
pub struct RoiConfig {
    pub x: Range,
    pub y: Range,
}

/// A rectangle on the sensor: its corner and its size.
#[derive(Clone, Copy, Debug, PartialEq, Eq, Structural)]
pub struct Roi {
    pub x_min: u16,
    pub y_min: u16,
    pub width: u16,
    pub height: u16,
}

impl RoiConfig {
    /// Neither range ends before it begins.
    pub open spec fn well_formed(self) -> bool {
        self.x.min <= self.x.max && self.y.min <= self.y.max
    }

    /// Whether neither range ends before it begins.
    pub fn is_well_formed(&self) -> (ok: bool)
        ensures
            ok == self.well_formed(),
    {
        self.x.min <= self.x.max && self.y.min <= self.y.max
    }

    /// The rectangle between the two ranges.
    pub open spec fn rectangle(self) -> Roi {
        Roi {
            x_min: self.x.min,
            y_min: self.y.min,
            width: (self.x.max - self.x.min) as u16,
            height: (self.y.max - self.y.min) as u16,
        }
    }

    /// The rectangle between the two ranges.
    pub fn roi(self) -> (roi: Roi)
        requires
            self.well_formed(),
        ensures
            roi == self.rectangle(),
            roi.x_min == self.x.min,
            roi.y_min == self.y.min,
            roi.width == self.x.max - self.x.min,
            roi.height == self.y.max - self.y.min,
    {
        Roi {
            x_min: self.x.min,
            y_min: self.y.min,
            width: self.x.max - self.x.min,
            height: self.y.max - self.y.min,
        }
    }
}

/// How the station keeps its logs.
#[derive(Clone, Copy, Debug, PartialEq, Eq, Structural)]
pub struct LogConfig {
    pub max_files: u32,
    pub rotation_time: DurationStr,
    pub temperature_period: DurationStr,
    pub dedup_period: DurationStr,
}

/// Size of an image in pixels, or of a grid in cells.
#[derive(Clone, Copy, Debug, PartialEq, Eq, Structural)]
pub struct Dims {
    pub width: u32,
    pub height: u32,
}

/// The serial port of a GPS receiver.
#[derive(Clone, Debug)]
pub struct GpsConfig {
    pub port: String,
    pub baud_rate: u32,
    pub timeout: DurationStr,
}

/// One scaling pass as the configuration file names it.
#[derive(Clone, Debug)]
pub enum ScaleAlg {
    Vpss { device: String, dims: Dims },
    Software { dims: Dims, alg: SoftwareScalingAlg },
}

/// A value that is read from a node of any name: the first argument of the node takes the
/// place of its name.
#[derive(Clone, Copy, Debug, Hash)]
pub struct AnyNodeName<T>(pub T);

/// The filter of a scaling pass in software.
#[derive(Clone, Copy, Debug, PartialEq, Eq, Structural)]
pub enum SoftwareScalingAlg {
    /// Nearest Neighbor
    Nearest,
    /// Linear Filter
    Linear,
    /// Cubic Filter
    Cubic,
    /// Gaussian Filter
    Gaussian,
    /// Lanczos with window 3
    Lanczos,
}

/// How images are scaled.
#[derive(Clone, Debug)]
pub struct ScalerConfig {
    pub crop_mode: Option<AnyNodeName<CropMode>>,
    pub up: AnyNodeName<ScaleAlg>,
    pub down: AnyNodeName<ScaleAlg>,
}

/// How an image is cut into parts before it is scaled.
#[derive(Clone, Copy, Debug, PartialEq, Eq, Structural)]
pub enum CropMode {
    /// Into a centred grid of square cells, given by the cells along each axis.
    Grid(Dims),
}

/// Size of the result of a scaling pass.
#[derive(Clone, Copy, Debug, PartialEq, Eq, Structural)]
pub enum ScaleDims {
    /// The given size.
    Absolute(Dims),
    /// The size of the image that went into the scaler.
    Input,
}

/// A scaling pass in software.
#[derive(Clone, Copy, Debug)]
pub struct SoftwareScaling {
    pub alg: SoftwareScalingAlg,
    pub dims: AnyNodeName<ScaleDims>,
}

/// A scaling pass on a video processing subsystem.
#[derive(Clone, Debug)]
pub struct VpssScaling {
    pub device: String,
    pub dims: AnyNodeName<ScaleDims>,
    /// Take the nearest neighbor instead of a filter.
    pub nn: bool,
}

/// The passes of a scaler, which all run in the same place.
#[allow(inconsistent_fields)]
#[derive(Clone, Debug)]
pub enum ScalerSetup {
    Software {
        crop_mode: Option<AnyNodeName<CropMode>>,
        down: SoftwareScaling,
        up: Option<SoftwareScaling>,
    },
    Vpss {
        vdma_device: String,
        crop_mode: Option<AnyNodeName<CropMode>>,
        down: VpssScaling,
        up: Option<VpssScaling>,
    },
}

/// An entry of a node: an argument, or a property if it has a name.
#[derive(Clone, Debug)]
pub struct NodeEntry {
    pub name: Option<String>,
    pub value: NodeValue,
}

/// Entry `i` is the first argument.
pub open spec fn is_first_argument(entries: Seq<NodeEntry>, i: int) -> bool {
    &&& 0 <= i < entries.len()
    &&& entries[i].name is None
    &&& forall|j: int| 0 <= j < i ==> (#[trigger] entries[j]).name is Some
}

/// The node gets a new name from the entry at `argument`, which leaves the node.
#[derive(Clone, Debug)]
pub struct Renaming {
    pub argument: usize,
    pub name: String,
}

/// Why a node has no argument that could be its name.
#[derive(Clone, Debug)]
pub enum NodeNameError {
    /// There is no argument at the index.
    MissingArgument(usize),
    /// The argument cannot be a name.
    InvalidValue(String),
}

/// The name that a text stands for, if `club_kdl::KdlIdentifier` can read it.
pub uninterp spec fn kdl_identifier(text: Seq<char>) -> Option<Seq<char>>;

/// Parses a text as a `club_kdl::KdlIdentifier` and hands out its value, which is what
/// `kdl_identifier` names. The message of the error is always the same.
#[verifier::external_body]
fn parse_identifier(text: &str) -> (parsed: Result<String, String>)
    ensures
        match parsed {
            Ok(name) => kdl_identifier(text@) == Some(name@),
            Err(message) => kdl_identifier(text@) is None && message@
                == "Failed to parse KDL document"@,
        },
{
    match text.parse::<club_kdl::KdlIdentifier>() {
        Ok(identifier) => Ok(identifier.value().to_string()),
        Err(error) => Err(error.to_string()),
    }
}

/// Finds the first argument among the entries of a node.
fn first_argument(entries: &Vec<NodeEntry>) -> (index: Option<usize>)
    ensures
        match index {
            Some(i) => is_first_argument(entries@, i as int),
            None => forall|j: int| 0 <= j < entries@.len() ==> (#[trigger] entries@[j]).name is Some,
        },
{
    let mut i: usize = 0;
    while i < entries.len()
        invariant
            i <= entries@.len(),
            forall|j: int| 0 <= j < i ==> (#[trigger] entries@[j]).name is Some,
        decreases entries@.len() - i,
    {
        if entries[i].name.is_none() {
            return Some(i);
        }
        i = i + 1;
    }
    None
}

/// The renaming by the argument at an index whose text was parsed as a name.
pub fn renaming_from_parsed(argument: usize, parsed: Result<String, String>) -> (result: Result<
    Renaming,
    NodeNameError,
>)
    ensures
        match parsed {
            Ok(name) => result == Ok::<Renaming, NodeNameError>(Renaming { argument, name }),
            Err(message) => result == Err::<Renaming, NodeNameError>(
                NodeNameError::InvalidValue(message),
            ),
        },
{
    match parsed {
        Ok(name) => Ok(Renaming { argument, name }),
        Err(message) => Err(NodeNameError::InvalidValue(message)),
    }
}

/// Finds the new name of a node whose first argument takes the place of its name.
pub fn rename_from_argument(entries: &Vec<NodeEntry>) -> (result: Result<Renaming, NodeNameError>)
    ensures
        (forall|j: int| 0 <= j < entries@.len() ==> (#[trigger] entries@[j]).name is Some) ==> result
            == Err::<Renaming, NodeNameError>(NodeNameError::MissingArgument(0)),
        forall|i: int| #[trigger]
            is_first_argument(entries@, i) ==> match entries@[i].value {
                NodeValue::Other => result matches Err(NodeNameError::InvalidValue(message))
                    && message@ == "Expected identifier"@,
                NodeValue::Text(text) => match kdl_identifier(text@) {
                    Some(name) => result matches Ok(renaming) && renaming.argument == i
                        && renaming.name@ == name,
                    None => result matches Err(NodeNameError::InvalidValue(message)) && message@
                        == "Failed to parse KDL document"@,
                },
            },
{
    match first_argument(entries) {
        None => Err(NodeNameError::MissingArgument(0)),
        Some(i) => {
            proof {
                assert forall|j: int| #[trigger] is_first_argument(entries@, j) implies j == i by {
                    if j < i {
                        assert(entries@[j].name is Some);
                    } else if i < j {
                        assert(entries@[i as int].name is Some);
                    }
                }
            }
            match &entries[i].value {
                NodeValue::Text(text) => renaming_from_parsed(i, parse_identifier(text.as_str())),
                NodeValue::Other => Err(
                    NodeNameError::InvalidValue("Expected identifier".to_owned()),
                ),
            }
        },
    }
}

/// A region of interest begins where both ranges begin and ends where both end.
pub proof fn law_regions_span_their_ranges(config: RoiConfig, roi: Roi, ok: bool)
    requires
        call_ensures(RoiConfig::roi, (config,), roi),
        call_ensures(RoiConfig::is_well_formed, (&config,), ok),
        ok,
    ensures
        roi.x_min == config.x.min,
        roi.y_min == config.y.min,
        roi.x_min + roi.width == config.x.max,
        roi.y_min + roi.height == config.y.max,
{
}

/// Ranges make up a region if and only if neither of them ends before it begins.
pub proof fn law_only_ordered_ranges_make_a_region(config: RoiConfig, ok: bool)
    requires
        call_ensures(RoiConfig::is_well_formed, (&config,), ok),
    ensures
        ok <==> config.x.min <= config.x.max && config.y.min <= config.y.max,
        ok ==> call_requires(RoiConfig::roi, (config,)),
{
}

/// What the parser found is taken over as it is, time or message.
pub proof fn law_parsed_times_are_taken_over(
    parsed: Result<(u64, u32), String>,
    result: Result<DurationStr, ValueError>,
)
    requires
        call_ensures(DurationStr::from_parsed, (parsed,), result),
    ensures
        result is Ok <==> parsed is Ok,
        parsed matches Ok(time) ==> result->Ok_0.0.secs == time.0 && result->Ok_0.0.nanos == time.1,
        parsed matches Err(message) ==> (result->Err_0 matches ValueError::Custom(told) && told@
            == message@),
{
}

/// A value is read as a length of time if and only if it is a text that the parser can read, and
/// then as what the parser makes of it. A value that is no text is told apart from a text that
/// cannot be parsed.
pub proof fn law_times_are_what_the_parser_reads(
    value: NodeValue,
    result: Result<DurationStr, ValueError>,
)
    requires
        call_ensures(DurationStr::from_kdl_value, (&value,), result),
    ensures
        value is Other ==> result is Err && result->Err_0 is NotText,
        value matches NodeValue::Text(text) ==> {
            &&& result is Ok <==> parsed_duration(text@) is Ok
            &&& result matches Ok(time) ==> (time.0.secs, time.0.nanos) == parsed_duration(
                text@,
            )->Ok_0 && time.0.nanos < 1_000_000_000
            &&& result matches Err(error) ==> (error matches ValueError::Custom(told) && told@
                == parsed_duration(text@)->Err_0)
        },
{
}

/// A length of time in whole seconds, or of less than 584 years, is the same after it was written
/// and read back.
pub proof fn law_times_survive_their_text(
    time: DurationStr,
    value: NodeValue,
    back: Result<DurationStr, ValueError>,
)
    requires
        call_ensures(DurationStr::to_kdl_value, (&time,), value),
        call_ensures(DurationStr::from_kdl_value, (&value,), back),
        time.0.nanos < 1_000_000_000,
        time.0.nanos == 0 || time.0.secs <= 584 * 365 * 86_400,
    ensures
        back is Ok,
        back->Ok_0 == time,
{
    law_usual_durations_are_readable(time.0);
}

/// A length of time is written as a number and a unit that together make up the whole length, and no
/// larger unit would do.
pub proof fn law_times_are_written_in_their_largest_unit(time: DurationStr, value: NodeValue)
    requires
        call_ensures(DurationStr::to_kdl_value, (&time,), value),
    ensures
        value is Text,
        ({
            let total = time.0.secs * 1_000_000_000 + time.0.nanos;
            let (unit, name) = largest_unit(time.0);
            &&& value->Text_0@ == decimal((total / unit) as nat) + name
            &&& total / unit * unit == total
            &&& name == "y"@ || name == "w"@ || name == "d"@ || name == "h"@ || name == "m"@
                || name == "s"@ || name == "ms"@ || name == "us"@ || name == "ns"@
            &&& total % 31_556_926_000_000_000 == 0 <==> unit == 31_556_926_000_000_000
            &&& unit < 604_800_000_000_000 ==> total % 604_800_000_000_000 != 0
            &&& unit < 86_400_000_000_000 ==> total % 86_400_000_000_000 != 0
            &&& unit < 3_600_000_000_000 ==> total % 3_600_000_000_000 != 0
            &&& unit < 60_000_000_000 ==> total % 60_000_000_000 != 0
            &&& unit < 1_000_000_000 ==> total % 1_000_000_000 != 0
            &&& unit < 1_000_000 ==> total % 1_000_000 != 0
            &&& unit < 1_000 ==> total % 1_000 != 0
        }),
{
    let total = time.0.secs * 1_000_000_000 + time.0.nanos;
    let unit = largest_unit(time.0).0;
    vstd::arithmetic::div_mod::lemma_fundamental_div_mod(total, unit);
    assert(total / unit * unit == unit * (total / unit)) by (nonlinear_arith);
}

/// The number that decimal digits stand for.
pub open spec fn digits_value(digits: Seq<char>) -> int
    decreases digits.len(),
{
    if digits.len() == 0 {
        0
    } else {
        10 * digits_value(digits.drop_last()) + (digits.last() as int - 48)
    }
}

/// Decimal digits stand for the number that they were written for.
pub proof fn law_decimal_digits_stand_for_the_number(number: nat)
    ensures
        digits_value(decimal(number)) == number,
        decimal(number).len() > 0,
    decreases number,
{
    reveal_with_fuel(digits_value, 2);
    let last = (48 + number % 10) as u8 as char;
    if number < 10 {
        assert(seq![last].drop_last() =~= Seq::<char>::empty());
        assert(decimal(number).last() == last);
    } else {
        law_decimal_digits_stand_for_the_number(number / 10);
        assert(decimal(number).drop_last() =~= decimal(number / 10));
        assert(decimal(number).last() == last);
    }
}

/// What the parser of names found is taken over as it is, for the argument that was given.
pub proof fn law_parsed_names_are_taken_over(
    argument: usize,
    parsed: Result<String, String>,
    result: Result<Renaming, NodeNameError>,
)
    requires
        call_ensures(renaming_from_parsed, (argument, parsed), result),
    ensures
        result is Ok <==> parsed is Ok,
        parsed matches Ok(name) ==> result->Ok_0.name@ == name@ && result->Ok_0.argument == argument,
        parsed matches Err(message) ==> (result->Err_0 matches NodeNameError::InvalidValue(told)
            && told@ == message@),
{
}

/// The first entry without a name, after entries that all have one, becomes the name of the node if
/// it is a text that stands for a name, whatever comes after it.
pub proof fn law_first_argument_becomes_the_name(
    entries: Vec<NodeEntry>,
    i: int,
    result: Result<Renaming, NodeNameError>,
)
    requires
        call_ensures(rename_from_argument, (&entries,), result),
        0 <= i < entries@.len(),
        entries@[i].name is None,
        forall|j: int| 0 <= j < i ==> (#[trigger] entries@[j]).name is Some,
    ensures
        entries@[i].value is Other ==> (result matches Err(NodeNameError::InvalidValue(message))
            && message@ == "Expected identifier"@),
        entries@[i].value matches NodeValue::Text(text) ==> {
            &&& kdl_identifier(text@) is Some <==> result is Ok
            &&& result matches Ok(renaming) ==> renaming.argument == i && renaming.name@
                == kdl_identifier(text@)->Some_0
            &&& result matches Err(error) ==> (error matches NodeNameError::InvalidValue(message)
                && message@ == "Failed to parse KDL document"@)
        },
{
    assert(is_first_argument(entries@, i));
}

/// A node whose entries all have names has no argument that could become its name.
pub proof fn law_nodes_without_arguments_keep_their_name(
    entries: Vec<NodeEntry>,
    result: Result<Renaming, NodeNameError>,
)
    requires
        call_ensures(rename_from_argument, (&entries,), result),
        forall|j: int| 0 <= j < entries@.len() ==> (#[trigger] entries@[j]).name is Some,
    ensures
        result matches Err(NodeNameError::MissingArgument(index)) && index == 0,
{
}

} // verus!
