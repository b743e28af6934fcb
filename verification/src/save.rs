//! The save loop: where images are saved, in which forms, and what a failure means.
use vstd::prelude::*;

use crate::config::{CameraConfig, Real};

verus! {

/// Nanoseconds in a second, as a number of any size.
pub open spec fn second_nanos() -> int {
    1_000_000_000
}

/// Nanoseconds in a day.
pub open spec fn day_nanos() -> int {
    86_400 * second_nanos()
}

/// The first second that a time of day can name, in the year -9999.
pub const MIN_SECOND: i64 = -377_705_023_201;

/// The last second that a time of day can name, in the year 9999.
pub const MAX_SECOND: i64 = 253_402_207_200;

/// A point in time: the seconds since 1970 began in UTC, and the nanoseconds after that.
#[derive(Clone, Copy, Debug, PartialEq, Eq, Structural)]
pub struct Stamp {
    pub second: i64,
    pub nanosecond: i32,
}

impl Stamp {
    pub open spec fn well_formed(self) -> bool {
        &&& MIN_SECOND <= self.second <= MAX_SECOND
        &&& -second_nanos() < self.nanosecond < second_nanos()
        &&& self.second == MIN_SECOND ==> self.nanosecond >= 0
    }

    /// Nanoseconds since 1970 began in UTC.
    pub open spec fn total(self) -> int {
        self.second * second_nanos() + self.nanosecond
    }

    /// Days since 1970 began in UTC.
    pub open spec fn day(self) -> int {
        self.total() / day_nanos()
    }

    /// Milliseconds since the day began in UTC.
    pub open spec fn milli_of_day(self) -> int {
        self.total() % day_nanos() / 1_000_000
    }
}

/// The decimal digit for a number below ten.
pub open spec fn digit(number: int) -> char {
    (48 + number) as u8 as char
}

/// A number below a hundred in two digits.
pub open spec fn two_digits(number: int) -> Seq<char> {
    seq![digit(number / 10), digit(number % 10)]
}

/// The time of day that a millisecond of the day belongs to, as hours, minutes and seconds with
/// hyphens between them, and a fraction of three digits.
pub open spec fn clock_text(milli: int) -> Seq<char> {
    let second = milli / 1_000;
    two_digits(second / 3_600) + seq!['-'] + two_digits(second / 60 % 60) + seq!['-'] + two_digits(
        second % 60,
    ) + seq!['.', digit(milli % 1_000 / 100)] + two_digits(milli % 100)
}

/// The form of the names of the directories, one for each day.
pub const DAY_FORMAT: &'static str = "%Y-%m-%d";

/// The form of the names of FITS files.
pub const FITS_FORMAT: &'static str = "%H-%M-%S%.3f.fits";

/// The form of the names of PNG files.
pub const PNG_FORMAT: &'static str = "%H-%M-%S%.3f.png";

/// The text that `jiff::Timestamp::strftime` writes for a point in time.
pub uninterp spec fn timestamp_text(second: i64, nanosecond: i32, format: Seq<char>) -> Seq<char>;

/// The name of the directory for the images of a day: the text for the noon of the day.
pub open spec fn day_name(day: int) -> Seq<char> {
    timestamp_text((86_400 * day + 43_200) as i64, 0, DAY_FORMAT@)
}

/// Writes a point in time with `jiff::Timestamp::strftime`, in UTC. The text is the one that
/// `timestamp_text` names. Year, month and day are those of the noon of the day. Hours, minutes
/// and seconds have two digits, and the fraction of a second is cut off after three. What of a
/// format is no directive is taken over as it is.
#[verifier::external_body]
fn format_timestamp(second: i64, nanosecond: i32, format: &str) -> (text: String)
    requires
        (Stamp { second, nanosecond }).well_formed(),
    ensures
        text@ == timestamp_text(second, nanosecond, format@),
        format@ == DAY_FORMAT@ ==> text@ == day_name((Stamp { second, nanosecond }).day()),
        format@ == FITS_FORMAT@ ==> text@ == clock_text(
            (Stamp { second, nanosecond }).milli_of_day(),
        ) + ".fits"@,
        format@ == PNG_FORMAT@ ==> text@ == clock_text(
            (Stamp { second, nanosecond }).milli_of_day(),
        ) + ".png"@,
{
    jiff::Timestamp::new(second, nanosecond).unwrap().strftime(format).to_string()
}

impl Stamp {
    /// The name of the directory for an image that was captured at this time.
    pub fn day_dir(self) -> (name: String)
        requires
            self.well_formed(),
        ensures
            name@ == day_name(self.day()),
            name@ == timestamp_text(self.second, self.nanosecond, DAY_FORMAT@),
    {
        format_timestamp(self.second, self.nanosecond, DAY_FORMAT)
    }

    /// The name of the FITS file for an image that was captured at this time.
    pub fn fits_name(self) -> (name: String)
        requires
            self.well_formed(),
        ensures
            name@ == clock_text(self.milli_of_day()) + ".fits"@,
    {
        format_timestamp(self.second, self.nanosecond, FITS_FORMAT)
    }

    /// The name of the PNG file for an image that was captured at this time.
    pub fn png_name(self) -> (name: String)
        requires
            self.well_formed(),
        ensures
            name@ == clock_text(self.milli_of_day()) + ".png"@,
    {
        format_timestamp(self.second, self.nanosecond, PNG_FORMAT)
    }
}

/// Two digits tell a number below a hundred.
proof fn lemma_two_digits(a: int, b: int)
    requires
        0 <= a < 100,
        0 <= b < 100,
        two_digits(a) == two_digits(b),
    ensures
        a == b,
{
    assert(two_digits(a)[0] == two_digits(b)[0]);
    assert(two_digits(a)[1] == two_digits(b)[1]);
}

/// A time of day tells the millisecond of the day.
pub proof fn law_clock_text_tells_millisecond(a: int, b: int)
    requires
        0 <= a < 86_400_000,
        0 <= b < 86_400_000,
        clock_text(a) == clock_text(b),
    ensures
        a == b,
{
    let s = a / 1_000;
    let t = b / 1_000;
    assert(clock_text(a).subrange(0, 2) =~= two_digits(s / 3_600));
    assert(clock_text(b).subrange(0, 2) =~= two_digits(t / 3_600));
    assert(clock_text(a).subrange(3, 5) =~= two_digits(s / 60 % 60));
    assert(clock_text(b).subrange(3, 5) =~= two_digits(t / 60 % 60));
    assert(clock_text(a).subrange(6, 8) =~= two_digits(s % 60));
    assert(clock_text(b).subrange(6, 8) =~= two_digits(t % 60));
    assert(clock_text(a).subrange(10, 12) =~= two_digits(a % 100));
    assert(clock_text(b).subrange(10, 12) =~= two_digits(b % 100));
    assert(clock_text(a)[9] == digit(a % 1_000 / 100));
    assert(clock_text(b)[9] == digit(b % 1_000 / 100));
    lemma_two_digits(s / 3_600, t / 3_600);
    lemma_two_digits(s / 60 % 60, t / 60 % 60);
    lemma_two_digits(s % 60, t % 60);
    lemma_two_digits(a % 100, b % 100);
}

/// Images of one day that were not captured in the same millisecond have different file names, and
/// the FITS file and the PNG file of an image differ in nothing but the ending.
pub proof fn law_images_have_their_own_names(a: Stamp, b: Stamp)
    requires
        a.day() == b.day(),
        a.total() / 1_000_000 != b.total() / 1_000_000,
    ensures
        clock_text(a.milli_of_day()) != clock_text(b.milli_of_day()),
        clock_text(a.milli_of_day()) + ".fits"@ != clock_text(b.milli_of_day()) + ".fits"@,
        clock_text(a.milli_of_day()) + ".png"@ != clock_text(b.milli_of_day()) + ".png"@,
{
    if clock_text(a.milli_of_day()) == clock_text(b.milli_of_day()) {
        law_clock_text_tells_millisecond(a.milli_of_day(), b.milli_of_day());
    }
    let (x, y) = (clock_text(a.milli_of_day()), clock_text(b.milli_of_day()));
    assert(x.len() == 12 && y.len() == 12);
    assert((x + ".fits"@).take(12) =~= x);
    assert((y + ".fits"@).take(12) =~= y);
    assert((x + ".png"@).take(12) =~= x);
    assert((y + ".png"@).take(12) =~= y);
}

/// Where an image was captured, in degrees and metres.
#[derive(Clone, Copy, Debug, PartialEq, Eq, Structural)]
pub struct Location {
    pub latitude: Real,
    pub longitude: Real,
    pub altitude: Real,
    /// The altitude above the mean sea level.
    pub altitude_msl: Real,
}

/// An entry of the header of a FITS file.
#[derive(Clone, Copy, Debug)]
pub struct Card {
    pub key: &'static str,
    pub value: Real,
    pub comment: &'static str,
}

/// The card has these contents.
pub open spec fn is_card(card: Card, key: &'static str, value: Real, comment: &'static str) -> bool {
    card.key@ == key@ && card.value == value && card.comment@ == comment@
}

/// The cards to be added to an image, in order. The location goes into FITS files only, so there
/// is nothing to add if none is saved or if the location is not known.
pub fn location_cards(save_fits: bool, location: Option<Location>) -> (cards: Vec<Card>)
    ensures
        match location {
            Some(place) if save_fits => {
                &&& cards@.len() == 4
                &&& is_card(
                    cards@[0],
                    "LON",
                    place.longitude,
                    "Longitude of the capture location (deg)",
                )
                &&& is_card(
                    cards@[1],
                    "LAT",
                    place.latitude,
                    "Latitude of the capture location (deg)",
                )
                &&& is_card(
                    cards@[2],
                    "ALT",
                    place.altitude,
                    "Altitude of the capture location (m)",
                )
                &&& is_card(
                    cards@[3],
                    "ALTMSL",
                    place.altitude_msl,
                    "Altitude of the capture location above mean sea level (m)",
                )
            },
            _ => cards@.len() == 0,
        },
{
    match location {
        Some(place) if save_fits => vec![
            Card {
                key: "LON",
                value: place.longitude,
                comment: "Longitude of the capture location (deg)",
            },
            Card {
                key: "LAT",
                value: place.latitude,
                comment: "Latitude of the capture location (deg)",
            },
            Card {
                key: "ALT",
                value: place.altitude,
                comment: "Altitude of the capture location (m)",
            },
            Card {
                key: "ALTMSL",
                value: place.altitude_msl,
                comment: "Altitude of the capture location above mean sea level (m)",
            },
        ],
        _ => Vec::new(),
    }
}

/// What ends the save loop early.
#[derive(Clone, Copy, Debug, PartialEq, Eq, Structural)]
pub enum SaveError {
    /// The directory of the day could not be created.
    Directory,
    /// The frame has no picture.
    Conversion,
}

/// What the save loop does next.
#[derive(Clone, Copy, Debug, PartialEq, Eq, Structural)]
pub enum SaveAction {
    /// Wait for an image.
    Receive,
    /// Look for the directory of the day.
    FindDir,
    CreateDir,
    /// Add the cards to the image and write it as FITS.
    WriteFits,
    /// Turn a mosaic into colours.
    Demosaic,
    /// Turn the frame into an image.
    Convert,
    /// Resample the image and write it as PNG.
    WritePng,
    /// End the loop, because no image can come any more.
    Finish,
    /// End the loop with an error.
    Fail(SaveError),
}

/// What the save loop learns from what it did.
#[derive(Clone, Copy, Debug, PartialEq, Eq, Structural)]
pub enum SaveEvent {
    /// Whether an image came.
    Received(bool),
    /// Whether the directory is there.
    DirFound(bool),
    DirCreated(bool),
    FitsWritten(bool),
    /// Whether the frame is free of a mosaic now.
    Demosaiced(bool),
    Converted(bool),
    PngWritten(bool),
}

impl SaveEvent {
    /// The event is an outcome of `action`.
    pub open spec fn answers(self, action: SaveAction) -> bool {
        match action {
            SaveAction::Receive => self is Received,
            SaveAction::FindDir => self is DirFound,
            SaveAction::CreateDir => self is DirCreated,
            SaveAction::WriteFits => self is FitsWritten,
            SaveAction::Demosaic => self is Demosaiced,
            SaveAction::Convert => self is Converted,
            SaveAction::WritePng => self is PngWritten,
            SaveAction::Finish | SaveAction::Fail(_) => false,
        }
    }
}

/// The forms in which images are saved.
#[derive(Clone, Copy, Debug, PartialEq, Eq, Structural)]
pub struct SaveForms {
    pub fits: bool,
    pub png: bool,
}

impl SaveForms {
    /// The forms that a configuration asks for.
    pub fn new(config: &CameraConfig) -> (forms: SaveForms)
        ensures
            forms.fits == config.save_fits,
            forms.png == config.save_png,
    {
        SaveForms { fits: config.save_fits, png: config.save_png }
    }

    /// What follows once the directory is there.
    pub open spec fn first_action(self) -> SaveAction {
        if self.fits {
            SaveAction::WriteFits
        } else {
            SaveAction::Demosaic
        }
    }

    /// What follows an action that came out as `event`.
    pub open spec fn after(self, event: SaveEvent) -> SaveAction {
        match event {
            SaveEvent::Received(true) => SaveAction::FindDir,
            SaveEvent::Received(false) => SaveAction::Finish,
            SaveEvent::DirFound(true) => self.first_action(),
            SaveEvent::DirFound(false) => SaveAction::CreateDir,
            SaveEvent::DirCreated(true) => self.first_action(),
            SaveEvent::DirCreated(false) => SaveAction::Fail(SaveError::Directory),
            SaveEvent::FitsWritten(_) => SaveAction::Demosaic,
            SaveEvent::Demosaiced(true) => if self.png {
                SaveAction::Convert
            } else {
                SaveAction::Receive
            },
            SaveEvent::Demosaiced(false) => SaveAction::Receive,
            SaveEvent::Converted(true) => SaveAction::WritePng,
            SaveEvent::Converted(false) => SaveAction::Fail(SaveError::Conversion),
            SaveEvent::PngWritten(_) => SaveAction::Receive,
        }
    }

    /// The action that is due after `events`.
    pub open spec fn due(self, events: Seq<SaveEvent>) -> SaveAction {
        if events.len() == 0 {
            SaveAction::Receive
        } else {
            self.after(events.last())
        }
    }

    /// Each of `events` is an outcome of the action that was due.
    pub open spec fn admits(self, events: Seq<SaveEvent>) -> bool {
        forall|i: int|
            0 <= i < events.len() ==> (#[trigger] events[i]).answers(self.due(events.take(i)))
    }

    /// Tells what follows an action that came out as `event`. The loop starts with waiting for
    /// an image.
    pub fn next_action(self, event: SaveEvent) -> (action: SaveAction)
        ensures
            action == self.after(event),
    {
        let first = if self.fits {
            SaveAction::WriteFits
        } else {
            SaveAction::Demosaic
        };
        match event {
            SaveEvent::Received(came) => if came {
                SaveAction::FindDir
            } else {
                SaveAction::Finish
            },
            SaveEvent::DirFound(found) => if found {
                first
            } else {
                SaveAction::CreateDir
            },
            SaveEvent::DirCreated(created) => if created {
                first
            } else {
                SaveAction::Fail(SaveError::Directory)
            },
            SaveEvent::FitsWritten(_) => SaveAction::Demosaic,
            SaveEvent::Demosaiced(done) => if done && self.png {
                SaveAction::Convert
            } else {
                SaveAction::Receive
            },
            SaveEvent::Converted(done) => if done {
                SaveAction::WritePng
            } else {
                SaveAction::Fail(SaveError::Conversion)
            },
            SaveEvent::PngWritten(_) => SaveAction::Receive,
        }
    }
}

/// What an image goes through when nothing fails, if the directory of the day is there or not.
pub open spec fn save_plan(forms: SaveForms, dir_found: bool) -> Seq<SaveEvent> {
    let found = if dir_found {
        seq![SaveEvent::Received(true), SaveEvent::DirFound(true)]
    } else {
        seq![
            SaveEvent::Received(true),
            SaveEvent::DirFound(false),
            SaveEvent::DirCreated(true),
        ]
    };
    let fits = if forms.fits {
        seq![SaveEvent::FitsWritten(true)]
    } else {
        seq![]
    };
    let png = if forms.png {
        seq![SaveEvent::Converted(true), SaveEvent::PngWritten(true)]
    } else {
        seq![]
    };
    found + fits + seq![SaveEvent::Demosaiced(true)] + png
}

/// An image that meets no failure is saved once in each of the forms asked for, FITS before PNG,
/// into a directory that is there, and the loop waits for the next image after that.
pub proof fn law_image_is_saved_in_all_forms(forms: SaveForms, dir_found: bool)
    ensures
        forms.admits(save_plan(forms, dir_found)),
        forms.due(save_plan(forms, dir_found)) == SaveAction::Receive,
{
    let plan = save_plan(forms, dir_found);
    assert forall|i: int| 0 <= i < plan.len() implies (#[trigger] plan[i]).answers(
        forms.due(plan.take(i)),
    ) by {
        if i > 0 {
            assert(plan.take(i).last() == plan[i - 1]);
        }
    }
}

/// The loop ends with an error only if a directory could not be created or a frame has no picture,
/// and without one only if no image can come any more. No failed write ends it.
pub proof fn law_save_loop_ends_for_a_reason(forms: SaveForms, events: Seq<SaveEvent>)
    ensures
        forms.due(events) == SaveAction::Finish <==> events.len() > 0 && events.last()
            == SaveEvent::Received(false),
        forms.due(events) == SaveAction::Fail(SaveError::Directory) <==> events.len() > 0
            && events.last() == SaveEvent::DirCreated(false),
        forms.due(events) == SaveAction::Fail(SaveError::Conversion) <==> events.len() > 0
            && events.last() == SaveEvent::Converted(false),
{
}

/// A form that was not asked for is never written.
pub proof fn law_only_chosen_forms_are_written(forms: SaveForms, events: Seq<SaveEvent>)
    requires
        forms.admits(events),
    ensures
        forms.due(events) is WriteFits ==> forms.fits,
        forms.due(events) is Convert ==> forms.png,
        forms.due(events) is WritePng ==> forms.png,
{
    let n = events.len() as int;
    if n > 0 && events.last() is Converted {
        assert(events[n - 1].answers(forms.due(events.take(n - 1))));
    }
}

/// A mosaic that cannot be turned into colours costs the image its PNG file and nothing else, and
/// its FITS file has been tried before.
pub proof fn law_bad_mosaic_costs_only_the_picture(forms: SaveForms, events: Seq<SaveEvent>)
    requires
        forms.admits(events),
        events.len() > 0,
        events.last() == SaveEvent::Demosaiced(false),
    ensures
        forms.due(events) is Receive,
        forms.fits ==> events.len() > 1 && events[events.len() - 2] is FitsWritten,
{
    let n = events.len() as int;
    assert(events[n - 1].answers(forms.due(events.take(n - 1))));
    assert(n > 1);
    assert(events.take(n - 1).last() == events[n - 2]);
}

/// The decimal digit at a place of a text.
pub open spec fn digit_at(text: Seq<char>, place: int) -> int {
    text[place] as int - 48
}

proof fn lemma_clock_text_reads_back(milli: int)
    requires
        0 <= milli < 86_400_000,
    ensures
        clock_text(milli).len() == 12,
        ({
            let text = clock_text(milli);
            let hours = 10 * digit_at(text, 0) + digit_at(text, 1);
            let minutes = 10 * digit_at(text, 3) + digit_at(text, 4);
            let seconds = 10 * digit_at(text, 6) + digit_at(text, 7);
            let millis = 100 * digit_at(text, 9) + 10 * digit_at(text, 10) + digit_at(text, 11);
            &&& text[2] == '-'
            &&& text[5] == '-'
            &&& text[8] == '.'
            &&& 0 <= hours < 24
            &&& 0 <= minutes < 60
            &&& 0 <= seconds < 60
            &&& 0 <= millis < 1_000
            &&& ((hours * 60 + minutes) * 60 + seconds) * 1_000 + millis == milli
        }),
{
    let text = clock_text(milli);
    let second = milli / 1_000;
    assert(text[0] == digit(second / 3_600 / 10));
    assert(text[1] == digit(second / 3_600 % 10));
    assert(text[3] == digit(second / 60 % 60 / 10));
    assert(text[4] == digit(second / 60 % 60 % 10));
    assert(text[6] == digit(second % 60 / 10));
    assert(text[7] == digit(second % 60 % 10));
    assert(text[9] == digit(milli % 1_000 / 100));
    assert(text[10] == digit(milli % 100 / 10));
    assert(text[11] == digit(milli % 100 % 10));
}

/// The names of both files of an image read as the hour, the minute, the second and the millisecond
/// of the day in UTC at which its capture started. They differ in nothing but their endings.
pub proof fn law_names_read_as_the_time_of_day(stamp: Stamp, fits: String, png: String)
    requires
        call_ensures(Stamp::fits_name, (stamp,), fits),
        call_ensures(Stamp::png_name, (stamp,), png),
    ensures
        fits@.len() == 17,
        png@.len() == 16,
        fits@.take(12) == png@.take(12),
        fits@.skip(12) == ".fits"@,
        png@.skip(12) == ".png"@,
        ({
            let total = stamp.second * 1_000_000_000 + stamp.nanosecond;
            let hours = 10 * digit_at(fits@, 0) + digit_at(fits@, 1);
            let minutes = 10 * digit_at(fits@, 3) + digit_at(fits@, 4);
            let seconds = 10 * digit_at(fits@, 6) + digit_at(fits@, 7);
            let millis = 100 * digit_at(fits@, 9) + 10 * digit_at(fits@, 10) + digit_at(fits@, 11);
            let told = ((hours * 60 + minutes) * 60 + seconds) * 1_000 + millis;
            &&& fits@[2] == '-' && fits@[5] == '-' && fits@[8] == '.'
            &&& hours < 24 && minutes < 60 && seconds < 60
            &&& told == total % 86_400_000_000_000 / 1_000_000
        }),
{
    let milli = stamp.milli_of_day();
    lemma_clock_text_reads_back(milli);
    reveal_strlit(".fits");
    reveal_strlit(".png");
    let text = clock_text(milli);
    assert(fits@.take(12) =~= text);
    assert(png@.take(12) =~= text);
    assert(fits@.skip(12) =~= ".fits"@);
    assert(png@.skip(12) =~= ".png"@);
}

/// Images of one day in UTC go into one directory, and its name is that of the day.
pub proof fn law_days_have_one_directory(a: Stamp, b: Stamp, first: String, second: String)
    requires
        call_ensures(Stamp::day_dir, (a,), first),
        call_ensures(Stamp::day_dir, (b,), second),
        (a.second * 1_000_000_000 + a.nanosecond) / 86_400_000_000_000 == (b.second * 1_000_000_000
            + b.nanosecond) / 86_400_000_000_000,
    ensures
        first@ == second@,
        first@ == timestamp_text(a.second, a.nanosecond, "%Y-%m-%d"@),
{
}

/// The location goes into the header if and only if a FITS file is saved and the location is known:
/// longitude, latitude and both altitudes, each under its own key.
pub proof fn law_cards_tell_the_location(
    save_fits: bool,
    location: Option<Location>,
    cards: Vec<Card>,
)
    requires
        call_ensures(location_cards, (save_fits, location), cards),
    ensures
        !save_fits || location is None ==> cards@.len() == 0,
        save_fits && location is Some ==> {
            let place = location->Some_0;
            &&& cards@.len() == 4
            &&& cards@[0].key@ == "LON"@ && cards@[0].value == place.longitude
            &&& cards@[1].key@ == "LAT"@ && cards@[1].value == place.latitude
            &&& cards@[2].key@ == "ALT"@ && cards@[2].value == place.altitude
            &&& cards@[3].key@ == "ALTMSL"@ && cards@[3].value == place.altitude_msl
            &&& cards@[0].comment@ == "Longitude of the capture location (deg)"@
            &&& cards@[1].comment@ == "Latitude of the capture location (deg)"@
            &&& cards@[2].comment@ == "Altitude of the capture location (m)"@
            &&& cards@[3].comment@
                == "Altitude of the capture location above mean sea level (m)"@
        },
{
}

/// The forms are those that the configuration asks for.
pub proof fn law_forms_follow_the_configuration(config: CameraConfig, forms: SaveForms)
    requires
        call_ensures(SaveForms::new, (&config,), forms),
    ensures
        forms.fits == config.save_fits,
        forms.png == config.save_png,
{
}

/// A received image goes to its directory, which is created if it is not there, and the loop ends
/// when no image can come any more.
pub proof fn law_images_get_their_directory(
    forms: SaveForms,
    answer: bool,
    received: SaveAction,
    found: SaveAction,
    created: SaveAction,
)
    requires
        call_ensures(SaveForms::next_action, (forms, SaveEvent::Received(answer)), received),
        call_ensures(SaveForms::next_action, (forms, SaveEvent::DirFound(answer)), found),
        call_ensures(SaveForms::next_action, (forms, SaveEvent::DirCreated(answer)), created),
    ensures
        answer ==> received is FindDir,
        !answer ==> received is Finish,
        !answer ==> found is CreateDir,
        !answer ==> created == SaveAction::Fail(SaveError::Directory),
        answer ==> found == created,
        answer && forms.fits ==> found is WriteFits,
        answer && !forms.fits ==> found is Demosaic,
{
}

/// Whether or not its FITS file was written, an image goes on to its colours. It goes on from there
/// to a picture only if the colours were made and a PNG file is asked for, and otherwise the loop
/// waits for the next image. Whether or not a PNG file was written, it does the same, and only a
/// frame without a picture ends the loop.
pub proof fn law_images_go_on_to_their_picture(
    forms: SaveForms,
    answer: bool,
    written: SaveAction,
    demosaiced: SaveAction,
    converted: SaveAction,
    finished: SaveAction,
)
    requires
        call_ensures(SaveForms::next_action, (forms, SaveEvent::FitsWritten(answer)), written),
        call_ensures(SaveForms::next_action, (forms, SaveEvent::Demosaiced(answer)), demosaiced),
        call_ensures(SaveForms::next_action, (forms, SaveEvent::Converted(answer)), converted),
        call_ensures(SaveForms::next_action, (forms, SaveEvent::PngWritten(answer)), finished),
    ensures
        written is Demosaic,
        answer && forms.png ==> demosaiced is Convert,
        !answer || !forms.png ==> demosaiced is Receive,
        answer ==> converted is WritePng,
        !answer ==> converted == SaveAction::Fail(SaveError::Conversion),
        finished is Receive,
{
}

/// Every point in time from the year -9999 to the year 9999 has a directory and file names.
pub proof fn law_times_have_names(stamp: Stamp)
    requires
        -377_705_023_200 <= stamp.second <= 253_402_207_200,
        -1_000_000_000 < stamp.nanosecond < 1_000_000_000,
    ensures
        call_requires(Stamp::day_dir, (stamp,)),
        call_requires(Stamp::fits_name, (stamp,)),
        call_requires(Stamp::png_name, (stamp,)),
{
}

} // verus!
