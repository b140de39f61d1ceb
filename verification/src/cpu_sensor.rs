use crate::error::{ErrorKind, Failure, OcypusError};
use crate::sensor::cpu_sensor::{cpu_reading, CpuSensor};
use crate::sensor::{reading_view, CommandOutcome};
use crate::temperature::Temperature;
use vstd::prelude::*;
use vstd::string::*;

verus! {

/// The CPU temperature that the outcome of the `sensors` tool gives, every
/// failure being an input and output failure that says what went wrong: the
/// tool did not start, it ended with another status than zero, or its
/// output holds no temperature. The output of a tool that failed is not
/// searched.
pub open spec fn cpu_output_reading(outcome: CommandOutcome) -> Result<int, Failure> {
    match cpu_reading(outcome) {
        Ok(millis) => Ok(millis),
        Err(f) => Err(Failure { kind: ErrorKind::Io, detail: f.detail }),
    }
}

/// A tool that did not start, or that ended with another status than
/// zero, gives no reading, whatever it wrote.
pub proof fn lemma_failed_tool_gives_no_reading(outcome: CommandOutcome)
    requires
        outcome.output() is None,
    ensures
        cpu_output_reading(outcome) is Err,
{
}

/// The CPU temperature that the outcome of the `sensors` tool gives: the
/// number under the first of the labels that occurs in what the tool
/// wrote, where it ran with success.
pub fn get_cpu_temperature(outcome: &CommandOutcome) -> (r: Result<Temperature, OcypusError>)
    ensures
        reading_view(r) == cpu_output_reading(*outcome),
{
    match CpuSensor::get_temperature(outcome) {
        Ok(reading) => Ok(reading),
        Err(e) => Err(OcypusError::Io(String::from_str(e.detail()))),
    }
}

} // verus!
