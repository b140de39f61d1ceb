use crate::error::{ErrorKind, Failure, OcypusError};
use crate::sensor::{reading_view, Command, CommandLine, CommandOutcome};
use crate::temperature::{parse_spec, Temperature};
use crate::text::join3;
use vstd::prelude::*;
use vstd::string::*;

verus! {

/// The error of the regex crate for a pattern that it does not take.
#[verifier::external_type_specification]
#[verifier::external_body]
pub struct ExRegexError(regex::Error);

/// What a search for a pattern in a text gives for one of the pattern's
/// groups, as contracts see it.
pub enum Found {
    /// The pattern is no regular expression, or too large a one.
    Invalid,
    /// The pattern occurs nowhere in the text.
    NoMatch,
    /// The pattern occurs, and the group took no part in its first match.
    Unset,
    /// What the group holds in the first match of the pattern.
    Text(Seq<char>),
}

/// What a search for a pattern in a text gives for one of the pattern's
/// groups.
#[derive(Debug, Clone, PartialEq, Eq)]
pub enum Capture {
    /// The pattern is no regular expression, or too large a one.
    Invalid,
    /// The pattern occurs nowhere in the text.
    NoMatch,
    /// The pattern occurs, and the group took no part in its first match.
    Unset,
    /// What the group holds in the first match of the pattern.
    Text(String),
}

impl View for Capture {
    type V = Found;

    open spec fn view(&self) -> Found {
        match self {
            Capture::Invalid => Found::Invalid,
            Capture::NoMatch => Found::NoMatch,
            Capture::Unset => Found::Unset,
            Capture::Text(t) => Found::Text(t@),
        }
    }
}

/// What the regex crate finds for group `group` of `pattern` in the first
/// match of `pattern` in `text`.
pub uninterp spec fn regex_capture(pattern: Seq<char>, text: Seq<char>, group: int) -> Found;

/// The answer of the regex crate as contracts see it.
pub open spec fn found_of(r: Result<Option<Option<String>>, regex::Error>) -> Found {
    match r {
        Err(_) => Found::Invalid,
        Ok(None) => Found::NoMatch,
        Ok(Some(None)) => Found::Unset,
        Ok(Some(Some(t))) => Found::Text(t@),
    }
}

/// Compiles `pattern` with `regex::Regex::new` and searches `text` with
/// `Regex::captures`; of the first match, `Captures::get` and
/// `Match::as_str` give the text of group `group`. The error is that of
/// `Regex::new`. What comes back depends on the three arguments alone, and
/// is known here only by its name.
#[verifier::external_body]
fn search(pattern: &str, text: &str, group: usize) -> (r: Result<
    Option<Option<String>>,
    regex::Error,
>)
    ensures
        found_of(r) == regex_capture(pattern@, text@, group as int),
{
    let compiled = regex::Regex::new(pattern)?;
    Ok(compiled.captures(text).map(|found| found.get(group).map(|m| m.as_str().to_string())))
}

/// The number of labels under which a CPU temperature is looked for.
pub const PATTERN_COUNT: usize = 4;

/// The pattern for the label at place `index`: the package sensor of Intel,
/// the die and the control temperature of AMD, and the first sensor of any
/// chip. Each asks for the label, a colon, white space, a plus sign, a
/// number as its first group, and the degree sign with a `C`. Every place
/// behind the last has the last pattern.
pub open spec fn pattern_text(index: int) -> Seq<char> {
    if index == 0 {
        r"Package id 0:\s*\+([0-9]+(?:\.[0-9]+)?)°C"@
    } else if index == 1 {
        r"Tdie:\s*\+([0-9]+(?:\.[0-9]+)?)°C"@
    } else if index == 2 {
        r"Tctl:\s*\+([0-9]+(?:\.[0-9]+)?)°C"@
    } else {
        r"temp1:\s*\+([0-9]+(?:\.[0-9]+)?)°C"@
    }
}

/// What a capture means for the reading: `None` where the search goes on
/// with the next pattern, else the reading or the failure that ends it.
pub open spec fn capture_reading(found: Found, pattern: Seq<char>) -> Option<Result<int, Failure>> {
    match found {
        Found::Invalid => Some(
            Err(
                Failure {
                    kind: ErrorKind::Sensor,
                    detail: "Failed to compile regex pattern '"@ + pattern + "'"@,
                },
            ),
        ),
        Found::NoMatch => None,
        Found::Unset => Some(
            Err(Failure { kind: ErrorKind::Sensor, detail: "Failed to capture temperature"@ }),
        ),
        Found::Text(t) => Some(
            match parse_spec(t) {
                Some(millis) => Ok(millis),
                None => Err(
                    Failure {
                        kind: ErrorKind::TemperatureParse,
                        detail: "Failed to parse temperature '"@ + t + "'"@,
                    },
                ),
            },
        ),
    }
}

/// The reading that the patterns from place `index` on give for `text`: that
/// of the first pattern that occurs in it.
pub open spec fn reading_from(text: Seq<char>, index: int) -> Result<int, Failure>
    decreases PATTERN_COUNT - index,
{
    if index >= PATTERN_COUNT {
        Err(
            Failure {
                kind: ErrorKind::Sensor,
                detail: "CPU temperature not found in sensors output"@,
            },
        )
    } else {
        match capture_reading(regex_capture(pattern_text(index), text, 1), pattern_text(index)) {
            Some(r) => r,
            None => reading_from(text, index + 1),
        }
    }
}

/// The reading that the outcome of the `sensors` tool gives.
pub open spec fn cpu_reading(outcome: CommandOutcome) -> Result<int, Failure> {
    match outcome {
        CommandOutcome::NotStarted(reason) => Err(
            Failure {
                kind: ErrorKind::Sensor,
                detail: "Failed to execute sensors command: "@ + reason@,
            },
        ),
        CommandOutcome::Finished { success: false, .. } => Err(
            Failure {
                kind: ErrorKind::Sensor,
                detail: "sensors command returned non-zero exit status"@,
            },
        ),
        CommandOutcome::Finished { success: true, stdout } => reading_from(stdout@, 0),
    }
}

/// Labels that do not occur are passed over.
proof fn lemma_skips_missing_labels(text: Seq<char>, index: int, winner: int)
    requires
        0 <= index <= winner <= PATTERN_COUNT,
        forall|i: int|
            index <= i < winner ==> regex_capture(#[trigger] pattern_text(i), text, 1)
                == Found::NoMatch,
    ensures
        reading_from(text, index) == reading_from(text, winner),
    decreases winner - index,
{
    if index < winner {
        assert(regex_capture(pattern_text(index), text, 1) == Found::NoMatch);
        lemma_skips_missing_labels(text, index + 1, winner);
    }
}

/// The order of the labels decides: where the labels before one do not
/// occur in the text and that one does, what is captured under it is the
/// answer, whatever stands under the labels behind it.
pub proof fn lemma_first_label_wins(text: Seq<char>, winner: int)
    requires
        0 <= winner < PATTERN_COUNT,
        regex_capture(pattern_text(winner), text, 1) != Found::NoMatch,
        forall|i: int|
            0 <= i < winner ==> regex_capture(#[trigger] pattern_text(i), text, 1)
                == Found::NoMatch,
    ensures
        Some(reading_from(text, 0)) == capture_reading(
            regex_capture(pattern_text(winner), text, 1),
            pattern_text(winner),
        ),
{
    lemma_skips_missing_labels(text, 0, winner);
}

/// Where none of the labels occurs, the answer is a failure; no reading is
/// made up.
pub proof fn lemma_no_label(text: Seq<char>)
    requires
        forall|i: int|
            0 <= i < PATTERN_COUNT ==> regex_capture(#[trigger] pattern_text(i), text, 1)
                == Found::NoMatch,
    ensures
        reading_from(text, 0) == Err::<int, Failure>(
            Failure {
                kind: ErrorKind::Sensor,
                detail: "CPU temperature not found in sensors output"@,
            },
        ),
{
    lemma_skips_missing_labels(text, 0, PATTERN_COUNT as int);
}

/// The CPU has a reading only where the `sensors` tool ran with success:
/// one that did not start, or that ended with another status than zero,
/// gives none, whatever it wrote.
pub proof fn lemma_reading_needs_success(outcome: CommandOutcome)
    ensures
        cpu_reading(outcome) is Ok ==> outcome.output() is Some,
{
}

/// The temperature sensor of the CPU, read through the `sensors` tool.
pub struct CpuSensor;

impl CpuSensor {
    /// The tool whose output holds the CPU temperature, as it is run.
    pub open spec fn command_line() -> CommandLine {
        CommandLine { program: "sensors"@, arguments: Seq::empty() }
    }

    /// The tool whose output holds the CPU temperature, as it is run.
    pub fn command() -> (c: Command)
        ensures
            c@ == CpuSensor::command_line(),
    {
        let c = Command { program: "sensors", arguments: Vec::new() };
        assert(c@.arguments =~= Seq::empty());
        c
    }

    /// The pattern for the label at place `index`; the last one for every
    /// place behind it.
    pub fn pattern(index: usize) -> (p: &'static str)
        ensures
            p@ == pattern_text(index as int),
    {
        if index == 0 {
            r"Package id 0:\s*\+([0-9]+(?:\.[0-9]+)?)°C"
        } else if index == 1 {
            r"Tdie:\s*\+([0-9]+(?:\.[0-9]+)?)°C"
        } else if index == 2 {
            r"Tctl:\s*\+([0-9]+(?:\.[0-9]+)?)°C"
        } else {
            r"temp1:\s*\+([0-9]+(?:\.[0-9]+)?)°C"
        }
    }

    /// Searches `text` for `pattern` and gives what its first group holds.
    pub fn capture(pattern: &str, text: &str) -> (c: Capture)
        ensures
            c@ == regex_capture(pattern@, text@, 1),
    {
        match search(pattern, text, 1) {
            Err(_) => Capture::Invalid,
            Ok(None) => Capture::NoMatch,
            Ok(Some(None)) => Capture::Unset,
            Ok(Some(Some(t))) => Capture::Text(t),
        }
    }

    /// What a capture means for the reading: `None` where the search goes
    /// on with the next pattern, else the reading or the failure that ends
    /// it.
    pub fn interpret(capture: &Capture, pattern: &str) -> (r: Option<
        Result<Temperature, OcypusError>,
    >)
        ensures
            match r {
                Some(reading) => capture_reading(capture@, pattern@) == Some(reading_view(reading)),
                None => capture_reading(capture@, pattern@) is None,
            },
    {
        match capture {
            Capture::Invalid => Some(
                Err(OcypusError::Sensor(join3("Failed to compile regex pattern '", pattern, "'"))),
            ),
            Capture::NoMatch => None,
            Capture::Unset => Some(
                Err(OcypusError::Sensor(String::from_str("Failed to capture temperature"))),
            ),
            Capture::Text(t) => Some(
                match Temperature::parse(t.as_str()) {
                    Some(reading) => Ok(reading),
                    None => Err(
                        OcypusError::TemperatureParse(
                            join3("Failed to parse temperature '", t.as_str(), "'"),
                        ),
                    ),
                },
            ),
        }
    }

    /// The reading in the output of the `sensors` tool: the number under the
    /// first of the labels that occurs in it.
    pub fn read_output(text: &str) -> (r: Result<Temperature, OcypusError>)
        ensures
            reading_view(r) == reading_from(text@, 0),
    {
        let mut index: usize = 0;
        while index < PATTERN_COUNT
            invariant
                index <= PATTERN_COUNT,
                reading_from(text@, 0) == reading_from(text@, index as int),
            decreases PATTERN_COUNT - index,
        {
            let pattern = CpuSensor::pattern(index);
            let capture = CpuSensor::capture(pattern, text);
            match CpuSensor::interpret(&capture, pattern) {
                Some(reading) => {
                    return reading;
                },
                None => {},
            }
            index += 1;
        }
        Err(OcypusError::Sensor(String::from_str("CPU temperature not found in sensors output")))
    }

    /// The CPU temperature that the outcome of the `sensors` tool gives.
    pub fn get_temperature(outcome: &CommandOutcome) -> (r: Result<Temperature, OcypusError>)
        ensures
            reading_view(r) == cpu_reading(*outcome),
    {
        match outcome {
            CommandOutcome::NotStarted(reason) => {
                let mut text = String::from_str("Failed to execute sensors command: ");
                text.append(reason.as_str());
                Err(OcypusError::Sensor(text))
            },
            CommandOutcome::Finished { success, stdout } => {
                if !*success {
                    Err(
                        OcypusError::Sensor(
                            String::from_str("sensors command returned non-zero exit status"),
                        ),
                    )
                } else {
                    CpuSensor::read_output(stdout.as_str())
                }
            },
        }
    }

    /// Whether the CPU temperature can be read: the outcome of the
    /// `sensors` tool gives a reading.
    pub fn is_available(outcome: &CommandOutcome) -> (b: bool)
        ensures
            b == cpu_reading(*outcome).is_ok(),
    {
        CpuSensor::get_temperature(outcome).is_ok()
    }
}

} // verus!
