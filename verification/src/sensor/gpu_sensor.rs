use crate::error::{ErrorKind, Failure, OcypusError};
use crate::sensor::{reading_view, Command, CommandLine, CommandOutcome};
use crate::temperature::{parse_spec, Temperature};
use crate::text::{
    contains_folded, extract_number_spec, find_number, join3, lines_of, mentions, run_len, scan,
    to_chars, trim, trimmed, CharClass,
};
use vstd::prelude::*;
use vstd::string::*;

verus! {

/// The tools that can tell the temperature of a GPU, in the order in which
/// they are tried.
#[derive(Debug, Clone, Copy, PartialEq, Eq, Structural)]
pub enum GpuProbe {
    /// `nvidia-smi`, asked for the temperature alone.
    NvidiaSmi,
    /// `amd-smi`, asked for its temperature metrics.
    AmdSmi,
    /// `rocm-smi`, asked to show the temperature.
    RocmSmi,
    /// `sensors`, whose output is searched for a GPU.
    Sensors,
}

/// The number of tools that can tell the temperature of a GPU.
pub const PROBE_COUNT: usize = 4;

/// The tool at place `index` of the order in which they are tried; the
/// last one for every place behind it.
pub open spec fn probe_at(index: int) -> GpuProbe {
    if index == 0 {
        GpuProbe::NvidiaSmi
    } else if index == 1 {
        GpuProbe::AmdSmi
    } else if index == 2 {
        GpuProbe::RocmSmi
    } else {
        GpuProbe::Sensors
    }
}

impl GpuProbe {
    /// Whether a line of the tool's output is searched for a number.
    pub open spec fn selects(self, line: Seq<char>) -> bool {
        match self {
            GpuProbe::NvidiaSmi => false,
            GpuProbe::AmdSmi => mentions(line, "edge"@),
            GpuProbe::RocmSmi => true,
            GpuProbe::Sensors => mentions(line, "gpu"@) || mentions(line, "edge"@) || mentions(
                line,
                "junction"@,
            ),
        }
    }

    /// What is said where the tool could not be started.
    pub open spec fn unavailable_text(self) -> Seq<char> {
        match self {
            GpuProbe::NvidiaSmi => "nvidia-smi not available"@,
            GpuProbe::AmdSmi => "amd-smi not available"@,
            GpuProbe::RocmSmi => "rocm-smi not available"@,
            GpuProbe::Sensors => "sensors command not available"@,
        }
    }

    /// What is said where the tool ended with another status than zero.
    pub open spec fn failed_text(self) -> Seq<char> {
        match self {
            GpuProbe::NvidiaSmi => "nvidia-smi command failed"@,
            GpuProbe::AmdSmi => "amd-smi command failed"@,
            GpuProbe::RocmSmi => "rocm-smi command failed"@,
            GpuProbe::Sensors => "sensors command failed"@,
        }
    }

    /// What is said where the tool's output holds no temperature.
    pub open spec fn nothing_text(self) -> Seq<char> {
        match self {
            GpuProbe::NvidiaSmi => "No output from nvidia-smi"@,
            GpuProbe::AmdSmi => "No edge temperature found in amd-smi output"@,
            GpuProbe::RocmSmi => "No temperature found in rocm-smi output"@,
            GpuProbe::Sensors => "No GPU temperature found in sensors output"@,
        }
    }

    /// The words before the text that is no number, where one was expected.
    pub open spec fn unparsable_prefix(self) -> Seq<char> {
        match self {
            GpuProbe::NvidiaSmi => "Failed to parse nvidia-smi temperature '"@,
            GpuProbe::AmdSmi => "Failed to parse amd-smi temperature '"@,
            GpuProbe::RocmSmi => "Failed to parse rocm-smi temperature '"@,
            GpuProbe::Sensors => "Failed to parse sensors temperature '"@,
        }
    }

    /// The reading that the text `number` stands for, or the failure that
    /// says that it is no number.
    pub open spec fn number_reading(self, number: Seq<char>) -> Result<int, Failure> {
        match parse_spec(number) {
            Some(millis) => Ok(millis),
            None => Err(
                Failure {
                    kind: ErrorKind::TemperatureParse,
                    detail: self.unparsable_prefix() + number + "'"@,
                },
            ),
        }
    }

    /// The text in the output `text` of the tool that stands for the
    /// temperature. `nvidia-smi` prints the number alone on its first line,
    /// which counts without the white space around it. Of the others the
    /// first number counts in the first line that is searched and holds
    /// one: for `amd-smi` a line that mentions the edge sensor, for
    /// `rocm-smi` any line, for `sensors` a line that mentions a GPU, an
    /// edge or a junction.
    pub open spec fn output_text(self, text: Seq<char>) -> Option<Seq<char>> {
        match self {
            GpuProbe::NvidiaSmi => {
                if lines_of(text).len() == 0 {
                    None
                } else {
                    Some(trimmed(lines_of(text)[0]))
                }
            },
            _ => first_number(lines_of(text), self),
        }
    }

    /// The reading in the output `text` of the tool.
    pub open spec fn output_reading(self, text: Seq<char>) -> Result<int, Failure> {
        match self.output_text(text) {
            Some(number) => self.number_reading(number),
            None => Err(Failure { kind: ErrorKind::Sensor, detail: self.nothing_text() }),
        }
    }

    /// The reading that the outcome of running the tool gives.
    pub open spec fn reading(self, outcome: CommandOutcome) -> Result<int, Failure> {
        match outcome {
            CommandOutcome::NotStarted(_) => Err(
                Failure { kind: ErrorKind::Sensor, detail: self.unavailable_text() },
            ),
            CommandOutcome::Finished { success: false, .. } => Err(
                Failure { kind: ErrorKind::Sensor, detail: self.failed_text() },
            ),
            CommandOutcome::Finished { success: true, stdout } => self.output_reading(stdout@),
        }
    }

    /// The tool at place `index` of the order in which they are tried; the
    /// last one for every place behind it.
    pub fn at(index: usize) -> (probe: GpuProbe)
        ensures
            probe == probe_at(index as int),
    {
        if index == 0 {
            GpuProbe::NvidiaSmi
        } else if index == 1 {
            GpuProbe::AmdSmi
        } else if index == 2 {
            GpuProbe::RocmSmi
        } else {
            GpuProbe::Sensors
        }
    }

    /// The tool as it is run.
    pub open spec fn command_line(self) -> CommandLine {
        match self {
            GpuProbe::NvidiaSmi => CommandLine {
                program: "nvidia-smi"@,
                arguments: seq!["--query-gpu=temperature.gpu"@, "--format=csv,noheader,nounits"@],
            },
            GpuProbe::AmdSmi => CommandLine {
                program: "amd-smi"@,
                arguments: seq!["metric"@, "--temperature"@],
            },
            GpuProbe::RocmSmi => CommandLine {
                program: "rocm-smi"@,
                arguments: seq!["--showtemp"@],
            },
            GpuProbe::Sensors => CommandLine { program: "sensors"@, arguments: Seq::empty() },
        }
    }

    /// The tool as it is run.
    pub fn command(self) -> (c: Command)
        ensures
            c@ == self.command_line(),
    {
        let mut arguments: Vec<&'static str> = Vec::new();
        let c = match self {
            GpuProbe::NvidiaSmi => {
                arguments.push("--query-gpu=temperature.gpu");
                arguments.push("--format=csv,noheader,nounits");
                Command { program: "nvidia-smi", arguments }
            },
            GpuProbe::AmdSmi => {
                arguments.push("metric");
                arguments.push("--temperature");
                Command { program: "amd-smi", arguments }
            },
            GpuProbe::RocmSmi => {
                arguments.push("--showtemp");
                Command { program: "rocm-smi", arguments }
            },
            GpuProbe::Sensors => Command { program: "sensors", arguments },
        };
        assert(c@.arguments =~= self.command_line().arguments);
        c
    }

    /// The failure of the given text, with the kind of a sensor failure.
    fn sensor_failure(text: &str) -> (e: OcypusError)
        ensures
            e@ == (Failure { kind: ErrorKind::Sensor, detail: text@ }),
    {
        OcypusError::Sensor(String::from_str(text))
    }

    /// The failure that says that the tool could not be started.
    fn unavailable(self) -> (e: OcypusError)
        ensures
            e@ == (Failure { kind: ErrorKind::Sensor, detail: self.unavailable_text() }),
    {
        match self {
            GpuProbe::NvidiaSmi => GpuProbe::sensor_failure("nvidia-smi not available"),
            GpuProbe::AmdSmi => GpuProbe::sensor_failure("amd-smi not available"),
            GpuProbe::RocmSmi => GpuProbe::sensor_failure("rocm-smi not available"),
            GpuProbe::Sensors => GpuProbe::sensor_failure("sensors command not available"),
        }
    }

    /// The failure that says that the tool ended with another status than
    /// zero.
    fn failed(self) -> (e: OcypusError)
        ensures
            e@ == (Failure { kind: ErrorKind::Sensor, detail: self.failed_text() }),
    {
        match self {
            GpuProbe::NvidiaSmi => GpuProbe::sensor_failure("nvidia-smi command failed"),
            GpuProbe::AmdSmi => GpuProbe::sensor_failure("amd-smi command failed"),
            GpuProbe::RocmSmi => GpuProbe::sensor_failure("rocm-smi command failed"),
            GpuProbe::Sensors => GpuProbe::sensor_failure("sensors command failed"),
        }
    }

    /// The failure that says that the tool's output holds no temperature.
    fn nothing(self) -> (e: OcypusError)
        ensures
            e@ == (Failure { kind: ErrorKind::Sensor, detail: self.nothing_text() }),
    {
        match self {
            GpuProbe::NvidiaSmi => GpuProbe::sensor_failure("No output from nvidia-smi"),
            GpuProbe::AmdSmi => GpuProbe::sensor_failure(
                "No edge temperature found in amd-smi output",
            ),
            GpuProbe::RocmSmi => GpuProbe::sensor_failure(
                "No temperature found in rocm-smi output",
            ),
            GpuProbe::Sensors => GpuProbe::sensor_failure(
                "No GPU temperature found in sensors output",
            ),
        }
    }

    /// The reading that the stretch `from..to` of `chars` stands for, or the
    /// failure that says that it is no number.
    fn read_number(self, text: &str, chars: &Vec<char>, from: usize, to: usize) -> (r: Result<
        Temperature,
        OcypusError,
    >)
        requires
            chars@ == text@,
            from <= to <= chars.len(),
        ensures
            reading_view(r) == self.number_reading(chars@.subrange(from as int, to as int)),
    {
        match Temperature::parse_chars(chars, from, to) {
            Some(reading) => Ok(reading),
            None => {
                let prefix = match self {
                    GpuProbe::NvidiaSmi => "Failed to parse nvidia-smi temperature '",
                    GpuProbe::AmdSmi => "Failed to parse amd-smi temperature '",
                    GpuProbe::RocmSmi => "Failed to parse rocm-smi temperature '",
                    GpuProbe::Sensors => "Failed to parse sensors temperature '",
                };
                Err(
                    OcypusError::TemperatureParse(
                        join3(prefix, text.substring_char(from, to), "'"),
                    ),
                )
            },
        }
    }
}

/// The number in the first of the lines that the tool searches and that
/// holds one; `None` where no line does.
pub open spec fn first_number(lines: Seq<Seq<char>>, probe: GpuProbe) -> Option<Seq<char>>
    decreases lines.len(),
{
    if lines.len() == 0 {
        None
    } else if probe.selects(lines[0]) && extract_number_spec(lines[0]) is Some {
        extract_number_spec(lines[0])
    } else {
        first_number(lines.drop_first(), probe)
    }
}

/// How many of the outcomes count: one for each tool, in their order.
pub open spec fn tried(outcomes: Seq<CommandOutcome>) -> int {
    if outcomes.len() < PROBE_COUNT {
        outcomes.len() as int
    } else {
        PROBE_COUNT as int
    }
}

/// What is said where no tool has been run yet.
pub open spec fn none_tried() -> Failure {
    Failure { kind: ErrorKind::Sensor, detail: "No GPU tool has been run"@ }
}

/// The reading that the outcomes from place `index` on give: that of the
/// first tool that has one, and the failure of the last tool where none has.
pub open spec fn chain_from(outcomes: Seq<CommandOutcome>, index: int) -> Result<int, Failure>
    decreases tried(outcomes) - index,
{
    if index < 0 || index >= tried(outcomes) {
        Err(none_tried())
    } else {
        let r = probe_at(index).reading(outcomes[index]);
        if r is Ok || index + 1 >= tried(outcomes) {
            r
        } else {
            chain_from(outcomes, index + 1)
        }
    }
}

/// The reading that the outcomes of the tools give, `outcomes[i]` being
/// that of the tool at place `i`.
pub open spec fn gpu_reading(outcomes: Seq<CommandOutcome>) -> Result<int, Failure> {
    chain_from(outcomes, 0)
}

/// The tool to run next, after the tools before it have given `outcomes`:
/// none once a tool has given a reading, or all have been run.
pub open spec fn next_probe_spec(outcomes: Seq<CommandOutcome>) -> Option<GpuProbe> {
    if gpu_reading(outcomes) is Ok || outcomes.len() >= PROBE_COUNT {
        None
    } else {
        Some(probe_at(outcomes.len() as int))
    }
}

/// A tool has a reading only where it ran with success and the text that
/// its output gives for the temperature is a number. Output that holds no
/// number is a failure of the tool like any other.
pub proof fn lemma_reading_needs_a_number(probe: GpuProbe, outcome: CommandOutcome)
    ensures
        probe.reading(outcome) is Ok <==> (outcome.output() matches Some(text)
            && probe.output_text(text) matches Some(number) && parse_spec(number) is Some),
{
}

/// Tools that fail are passed over: the chain from a place on is the chain
/// from the next place that holds no failure.
proof fn lemma_chain_skips_failures(outcomes: Seq<CommandOutcome>, index: int, winner: int)
    requires
        0 <= index <= winner < tried(outcomes),
        forall|i: int| index <= i < winner ==> (#[trigger] probe_at(i)).reading(outcomes[i]) is Err,
    ensures
        chain_from(outcomes, index) == chain_from(outcomes, winner),
    decreases winner - index,
{
    if index < winner {
        assert(probe_at(index).reading(outcomes[index]) is Err);
        lemma_chain_skips_failures(outcomes, index + 1, winner);
    }
}

/// The order of the tools decides: where the tools before one all fail and
/// that one has a reading, its reading is the answer, whatever the tools
/// behind it would say.
pub proof fn lemma_first_reading_wins(outcomes: Seq<CommandOutcome>, winner: int)
    requires
        0 <= winner < tried(outcomes),
        probe_at(winner).reading(outcomes[winner]) is Ok,
        forall|i: int| 0 <= i < winner ==> (#[trigger] probe_at(i)).reading(outcomes[i]) is Err,
    ensures
        gpu_reading(outcomes) == probe_at(winner).reading(outcomes[winner]),
{
    lemma_chain_skips_failures(outcomes, 0, winner);
}

/// Where every tool fails, the answer is a failure, that of the last tool;
/// no reading is made up.
pub proof fn lemma_all_fail(outcomes: Seq<CommandOutcome>)
    requires
        forall|i: int|
            0 <= i < tried(outcomes) ==> (#[trigger] probe_at(i)).reading(outcomes[i]) is Err,
    ensures
        gpu_reading(outcomes) is Err,
        tried(outcomes) > 0 ==> gpu_reading(outcomes) == probe_at(tried(outcomes) - 1).reading(
            outcomes[tried(outcomes) - 1],
        ),
{
    if tried(outcomes) > 0 {
        let last = tried(outcomes) - 1;
        lemma_chain_skips_failures(outcomes, 0, last);
        assert(probe_at(last).reading(outcomes[last]) is Err);
    }
}

/// A reading comes from one of the tools that were run.
pub proof fn lemma_reading_has_source(outcomes: Seq<CommandOutcome>, index: int)
    requires
        0 <= index,
        chain_from(outcomes, index) is Ok,
    ensures
        exists|i: int|
            index <= i < tried(outcomes) && chain_from(outcomes, index) == (#[trigger] probe_at(
                i,
            )).reading(outcomes[i]),
    decreases tried(outcomes) - index,
{
    if index < tried(outcomes) {
        let r = probe_at(index).reading(outcomes[index]);
        if r is Ok || index + 1 >= tried(outcomes) {
            assert(chain_from(outcomes, index) == probe_at(index).reading(outcomes[index]));
        } else {
            lemma_reading_has_source(outcomes, index + 1);
        }
    }
}

/// A tool is run only after every tool before it has failed, and only the
/// tool whose turn it is.
pub proof fn lemma_next_probe(outcomes: Seq<CommandOutcome>)
    ensures
        next_probe_spec(outcomes) is Some <==> outcomes.len() < PROBE_COUNT && forall|i: int|
            0 <= i < outcomes.len() ==> (#[trigger] probe_at(i)).reading(outcomes[i]) is Err,
        next_probe_spec(outcomes) is Some ==> next_probe_spec(outcomes) == Some(
            probe_at(outcomes.len() as int),
        ),
{
    if outcomes.len() < PROBE_COUNT {
        if forall|i: int|
            0 <= i < outcomes.len() ==> (#[trigger] probe_at(i)).reading(outcomes[i]) is Err {
            lemma_all_fail(outcomes);
        } else {
            let first = choose|i: int|
                0 <= i < outcomes.len() && !((#[trigger] probe_at(i)).reading(outcomes[i]) is Err);
            lemma_some_reading_wins(outcomes, first);
        }
    }
}

/// Where one of the tools that were run has a reading, the answer is a
/// reading.
pub proof fn lemma_some_reading_wins(outcomes: Seq<CommandOutcome>, index: int)
    requires
        0 <= index < tried(outcomes),
        probe_at(index).reading(outcomes[index]) is Ok,
    ensures
        gpu_reading(outcomes) is Ok,
    decreases index,
{
    if forall|i: int| 0 <= i < index ==> (#[trigger] probe_at(i)).reading(outcomes[i]) is Err {
        lemma_first_reading_wins(outcomes, index);
    } else {
        let earlier = choose|i: int|
            0 <= i < index && !((#[trigger] probe_at(i)).reading(outcomes[i]) is Err);
        lemma_some_reading_wins(outcomes, earlier);
    }
}

/// The words that lines are searched for.
struct Needles {
    gpu: Vec<char>,
    edge: Vec<char>,
    junction: Vec<char>,
}

impl Needles {
    spec fn wf(&self) -> bool {
        &&& self.gpu@ == "gpu"@
        &&& self.edge@ == "edge"@
        &&& self.junction@ == "junction"@
    }

    fn new() -> (n: Needles)
        ensures
            n.wf(),
    {
        Needles { gpu: to_chars("gpu"), edge: to_chars("edge"), junction: to_chars("junction") }
    }

    /// Whether the tool searches the line in the stretch `from..to`.
    fn selected(&self, probe: GpuProbe, chars: &Vec<char>, from: usize, to: usize) -> (b: bool)
        requires
            self.wf(),
            from <= to <= chars.len(),
        ensures
            b == probe.selects(chars@.subrange(from as int, to as int)),
    {
        match probe {
            GpuProbe::NvidiaSmi => false,
            GpuProbe::AmdSmi => contains_folded(chars, from, to, &self.edge),
            GpuProbe::RocmSmi => true,
            GpuProbe::Sensors => contains_folded(chars, from, to, &self.gpu) || contains_folded(
                chars,
                from,
                to,
                &self.edge,
            ) || contains_folded(chars, from, to, &self.junction),
        }
    }
}

/// The lines of a text from a place on are the line that begins there and
/// the lines behind its line feed.
proof fn lemma_lines_step(s: Seq<char>, pos: int, end: int)
    requires
        0 <= pos < s.len(),
        end == pos + run_len(s.subrange(pos, s.len() as int), CharClass::LineBody),
        pos <= end <= s.len(),
    ensures
        lines_of(s.skip(pos)).len() > 0,
        lines_of(s.skip(pos))[0] == s.subrange(pos, end),
        end < s.len() ==> lines_of(s.skip(pos)).drop_first() == lines_of(s.skip(end + 1)),
        end == s.len() ==> lines_of(s.skip(pos)).drop_first() == Seq::<Seq<char>>::empty(),
{
    let rest = s.skip(pos);
    assert(rest == s.subrange(pos, s.len() as int));
    let n = run_len(rest, CharClass::LineBody) as int;
    assert(rest.take(n) == s.subrange(pos, end));
    if n < rest.len() {
        assert(rest.skip(n + 1) == s.skip(end + 1));
        assert((seq![rest.take(n)] + lines_of(rest.skip(n + 1))).drop_first() == lines_of(
            rest.skip(n + 1),
        ));
    } else {
        assert(rest.take(n) == rest);
        assert(seq![rest].drop_first() == Seq::<Seq<char>>::empty());
    }
}

/// The temperature sensor of the GPU, read through the tool that has it.
pub struct GpuSensor;

impl GpuSensor {
    /// Where in `chars` the number stands that the tool's search of the
    /// lines gives.
    fn search_lines(chars: &Vec<char>, probe: GpuProbe) -> (span: Option<(usize, usize)>)
        ensures
            match span {
                Some((start, end)) => {
                    &&& start <= end <= chars.len()
                    &&& first_number(lines_of(chars@), probe) == Some(
                        chars@.subrange(start as int, end as int),
                    )
                },
                None => first_number(lines_of(chars@), probe) is None,
            },
    {
        let needles = Needles::new();
        let len = chars.len();
        let mut pos: usize = 0;
        assert(chars@.skip(0) == chars@);
        while pos < len
            invariant
                needles.wf(),
                pos <= len,
                len == chars.len(),
                first_number(lines_of(chars@), probe) == first_number(
                    lines_of(chars@.skip(pos as int)),
                    probe,
                ),
            decreases len - pos,
        {
            let end = scan(chars, pos, len, CharClass::LineBody);
            proof {
                lemma_lines_step(chars@, pos as int, end as int);
            }
            if needles.selected(probe, chars, pos, end) {
                match find_number(chars, pos, end) {
                    Some((start, stop)) => {
                        assert(chars@.subrange(pos as int, end as int).subrange(
                            start - pos,
                            stop - pos,
                        ) == chars@.subrange(start as int, stop as int));
                        return Some((start, stop));
                    },
                    None => {},
                }
            }
            if end == len {
                return None;
            }
            pos = end + 1;
        }
        None
    }

    /// Where in `chars` the text stands that the tool's output gives for
    /// the temperature.
    pub(crate) fn locate(probe: GpuProbe, chars: &Vec<char>) -> (span: Option<(usize, usize)>)
        ensures
            match span {
                Some((start, end)) => {
                    &&& start <= end <= chars.len()
                    &&& probe.output_text(chars@) == Some(
                        chars@.subrange(start as int, end as int),
                    )
                },
                None => probe.output_text(chars@) is None,
            },
    {
        match probe {
            GpuProbe::NvidiaSmi => {
                if chars.len() == 0 {
                    return None;
                }
                let end = scan(chars, 0, chars.len(), CharClass::LineBody);
                proof {
                    assert(chars@.skip(0) == chars@);
                    lemma_lines_step(chars@, 0, end as int);
                }
                Some(trim(chars, 0, end))
            },
            _ => GpuSensor::search_lines(chars, probe),
        }
    }

    /// The text in the output `text` of the tool that stands for the
    /// temperature.
    pub fn output_text(probe: GpuProbe, text: &str) -> (number: Option<String>)
        ensures
            match number {
                Some(n) => probe.output_text(text@) == Some(n@),
                None => probe.output_text(text@) is None,
            },
    {
        let chars = to_chars(text);
        match GpuSensor::locate(probe, &chars) {
            Some((from, to)) => Some(String::from_str(text.substring_char(from, to))),
            None => None,
        }
    }

    /// The reading in the output `text` of the tool.
    pub fn read_output(probe: GpuProbe, text: &str) -> (r: Result<Temperature, OcypusError>)
        ensures
            reading_view(r) == probe.output_reading(text@),
    {
        let chars = to_chars(text);
        match GpuSensor::locate(probe, &chars) {
            Some((from, to)) => probe.read_number(text, &chars, from, to),
            None => Err(probe.nothing()),
        }
    }

    /// The reading that the outcome of running the tool gives.
    pub fn attempt(probe: GpuProbe, outcome: &CommandOutcome) -> (r: Result<
        Temperature,
        OcypusError,
    >)
        ensures
            reading_view(r) == probe.reading(*outcome),
    {
        match outcome {
            CommandOutcome::NotStarted(_) => Err(probe.unavailable()),
            CommandOutcome::Finished { success, stdout } => {
                if !*success {
                    Err(probe.failed())
                } else {
                    GpuSensor::read_output(probe, stdout.as_str())
                }
            },
        }
    }

    /// The reading that the outcome of `nvidia-smi` gives.
    pub fn try_nvidia_smi(outcome: &CommandOutcome) -> (r: Result<Temperature, OcypusError>)
        ensures
            reading_view(r) == GpuProbe::NvidiaSmi.reading(*outcome),
    {
        GpuSensor::attempt(GpuProbe::NvidiaSmi, outcome)
    }

    /// The reading that the outcome of `amd-smi` gives.
    pub fn try_amd_smi(outcome: &CommandOutcome) -> (r: Result<Temperature, OcypusError>)
        ensures
            reading_view(r) == GpuProbe::AmdSmi.reading(*outcome),
    {
        GpuSensor::attempt(GpuProbe::AmdSmi, outcome)
    }

    /// The reading that the outcome of `rocm-smi` gives.
    pub fn try_rocm_smi(outcome: &CommandOutcome) -> (r: Result<Temperature, OcypusError>)
        ensures
            reading_view(r) == GpuProbe::RocmSmi.reading(*outcome),
    {
        GpuSensor::attempt(GpuProbe::RocmSmi, outcome)
    }

    /// The reading that the outcome of `sensors` gives for the GPU.
    pub fn try_sensors(outcome: &CommandOutcome) -> (r: Result<Temperature, OcypusError>)
        ensures
            reading_view(r) == GpuProbe::Sensors.reading(*outcome),
    {
        GpuSensor::attempt(GpuProbe::Sensors, outcome)
    }

    /// The first number in `s`, as text: leading prose and a trailing unit
    /// are passed over. `None` where `s` holds no digit.
    pub fn extract_number(s: &str) -> (number: Option<String>)
        ensures
            match number {
                Some(text) => extract_number_spec(s@) == Some(text@),
                None => extract_number_spec(s@) is None,
            },
    {
        crate::text::extract_number(s)
    }

    /// The GPU temperature that the outcomes of the tools give, `outcomes[i]`
    /// being that of the tool at place `i`: the reading of the first tool
    /// that has one, and the failure of the last tool where none has.
    pub fn get_temperature(outcomes: &Vec<CommandOutcome>) -> (r: Result<
        Temperature,
        OcypusError,
    >)
        ensures
            reading_view(r) == gpu_reading(outcomes@),
    {
        let count: usize = if outcomes.len() < PROBE_COUNT {
            outcomes.len()
        } else {
            PROBE_COUNT
        };
        if count == 0 {
            return Err(GpuProbe::sensor_failure("No GPU tool has been run"));
        }
        let mut index: usize = 0;
        while index + 1 < count
            invariant
                index < count,
                count == tried(outcomes@),
                gpu_reading(outcomes@) == chain_from(outcomes@, index as int),
            decreases count - index,
        {
            let r = GpuSensor::attempt(GpuProbe::at(index), &outcomes[index]);
            if r.is_ok() {
                return r;
            }
            index += 1;
        }
        GpuSensor::attempt(GpuProbe::at(index), &outcomes[index])
    }

    /// The tool to run next, after the tools before it have given
    /// `outcomes`: none once a tool has given a reading, or all have been
    /// run.
    pub fn next_probe(outcomes: &Vec<CommandOutcome>) -> (next: Option<GpuProbe>)
        ensures
            next == next_probe_spec(outcomes@),
    {
        if outcomes.len() >= PROBE_COUNT {
            None
        } else if GpuSensor::get_temperature(outcomes).is_ok() {
            None
        } else {
            Some(GpuProbe::at(outcomes.len()))
        }
    }

    /// Whether a tool has the temperature of a GPU: one of the outcomes
    /// gives a reading.
    pub fn is_available(outcomes: &Vec<CommandOutcome>) -> (b: bool)
        ensures
            b == gpu_reading(outcomes@).is_ok(),
    {
        GpuSensor::get_temperature(outcomes).is_ok()
    }
}

} // verus!
