use crate::error::{ErrorKind, Failure, OcypusError};
use crate::sensor::gpu_sensor::{
    gpu_reading, lemma_all_fail, lemma_first_reading_wins, probe_at, tried, GpuProbe, GpuSensor,
};
use crate::sensor::{reading_view, CommandOutcome};
use crate::temperature::Temperature;
use crate::text::extract_number_spec;
use vstd::prelude::*;
use vstd::string::*;

verus! {

/// The text that the outcome of a tool gives for the temperature: none
/// where the tool did not run with success.
pub open spec fn probe_text(probe: GpuProbe, outcome: CommandOutcome) -> Option<Seq<char>> {
    match outcome.output() {
        Some(text) => probe.output_text(text),
        None => None,
    }
}

/// What is said where no tool gives a temperature.
pub open spec fn no_temperature() -> Failure {
    Failure { kind: ErrorKind::Io, detail: "GPU temperature not found or parsing failed"@ }
}

/// The GPU temperature that the outcomes of the tools give, `outcomes[i]`
/// being that of the tool at place `i`: the reading of the first tool, in
/// their order, that has one. A tool that did not run with success, or
/// whose output holds no number, is passed over. Where no tool has a
/// reading, the failure is the same, whatever each tool said.
pub open spec fn gpu_output_reading(outcomes: Seq<CommandOutcome>) -> Result<int, Failure> {
    match gpu_reading(outcomes) {
        Ok(millis) => Ok(millis),
        Err(_) => Err(no_temperature()),
    }
}

/// The order of the tools decides, and a tool without a reading is passed
/// over, also where it ran with success and wrote something: the answer is
/// the reading of the first tool that has one.
pub proof fn lemma_first_tool_with_a_reading_decides(outcomes: Seq<CommandOutcome>, winner: int)
    requires
        0 <= winner < tried(outcomes),
        probe_at(winner).reading(outcomes[winner]) is Ok,
        forall|i: int| 0 <= i < winner ==> (#[trigger] probe_at(i)).reading(outcomes[i]) is Err,
    ensures
        gpu_output_reading(outcomes) == probe_at(winner).reading(outcomes[winner]),
{
    lemma_first_reading_wins(outcomes, winner);
}

/// Where no tool has a reading, the answer is the failure that says so.
pub proof fn lemma_no_tool_with_a_reading(outcomes: Seq<CommandOutcome>)
    requires
        forall|i: int|
            0 <= i < tried(outcomes) ==> (#[trigger] probe_at(i)).reading(outcomes[i]) is Err,
    ensures
        gpu_output_reading(outcomes) == Err::<int, Failure>(no_temperature()),
{
    lemma_all_fail(outcomes);
}

/// What a tool wrote, where it ran with success.
pub fn run(outcome: &CommandOutcome) -> (output: Option<String>)
    ensures
        match output {
            Some(text) => outcome.output() == Some(text@),
            None => outcome.output() is None,
        },
{
    match outcome {
        CommandOutcome::Finished { success, stdout } => {
            if *success {
                Some(stdout.clone())
            } else {
                None
            }
        },
        CommandOutcome::NotStarted(_) => None,
    }
}

/// The text that the outcome of a tool gives for the temperature.
fn gpu_temp(probe: GpuProbe, outcome: &CommandOutcome) -> (text: Option<String>)
    ensures
        match text {
            Some(t) => probe_text(probe, *outcome) == Some(t@),
            None => probe_text(probe, *outcome) is None,
        },
{
    match run(outcome) {
        Some(output) => GpuSensor::output_text(probe, output.as_str()),
        None => None,
    }
}

/// The first line of what `nvidia-smi` wrote, without the white space
/// around it.
pub fn gpu_temp_nvidia(outcome: &CommandOutcome) -> (text: Option<String>)
    ensures
        match text {
            Some(t) => probe_text(GpuProbe::NvidiaSmi, *outcome) == Some(t@),
            None => probe_text(GpuProbe::NvidiaSmi, *outcome) is None,
        },
{
    gpu_temp(GpuProbe::NvidiaSmi, outcome)
}

/// The first number in what `amd-smi` wrote that stands in a line that
/// mentions the edge sensor.
pub fn gpu_temp_amd_smi(outcome: &CommandOutcome) -> (text: Option<String>)
    ensures
        match text {
            Some(t) => probe_text(GpuProbe::AmdSmi, *outcome) == Some(t@),
            None => probe_text(GpuProbe::AmdSmi, *outcome) is None,
        },
{
    gpu_temp(GpuProbe::AmdSmi, outcome)
}

/// The first number in what `rocm-smi` wrote.
pub fn gpu_temp_rocm(outcome: &CommandOutcome) -> (text: Option<String>)
    ensures
        match text {
            Some(t) => probe_text(GpuProbe::RocmSmi, *outcome) == Some(t@),
            None => probe_text(GpuProbe::RocmSmi, *outcome) is None,
        },
{
    gpu_temp(GpuProbe::RocmSmi, outcome)
}

/// The first number in what `sensors` wrote that stands in a line that
/// mentions a GPU, an edge or a junction.
pub fn gpu_temp_sensors(outcome: &CommandOutcome) -> (text: Option<String>)
    ensures
        match text {
            Some(t) => probe_text(GpuProbe::Sensors, *outcome) == Some(t@),
            None => probe_text(GpuProbe::Sensors, *outcome) is None,
        },
{
    gpu_temp(GpuProbe::Sensors, outcome)
}

/// The first number in `s`, as text: leading prose and a trailing unit are
/// passed over. `None` where `s` holds no digit.
pub fn extract_number(s: &str) -> (number: Option<String>)
    ensures
        match number {
            Some(text) => extract_number_spec(s@) == Some(text@),
            None => extract_number_spec(s@) is None,
        },
{
    crate::text::extract_number(s)
}

/// The GPU temperature that the outcomes of the tools give, `outcomes[i]`
/// being that of the tool at place `i`: the reading of the first tool that
/// has one.
pub fn get_gpu_temperature(outcomes: &Vec<CommandOutcome>) -> (r: Result<Temperature, OcypusError>)
    ensures
        reading_view(r) == gpu_output_reading(outcomes@),
{
    match GpuSensor::get_temperature(outcomes) {
        Ok(reading) => Ok(reading),
        Err(_) => Err(
            OcypusError::Io(String::from_str("GPU temperature not found or parsing failed")),
        ),
    }
}

} // verus!
