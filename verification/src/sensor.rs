//! The sources of a temperature: what each tool prints, and how a reading is
//! found in it.

pub mod cpu_sensor;
pub mod gpu_sensor;

use crate::error::{Failure, OcypusError};
use crate::temperature::Temperature;
use vstd::prelude::*;

verus! {

/// What came of running a tool.
#[derive(Debug, Clone, PartialEq, Eq)]
pub enum CommandOutcome {
    /// The tool could not be started; the text says why.
    NotStarted(String),
    /// The tool ran to its end.
    Finished {
        /// Whether it ended with status zero.
        success: bool,
        /// What it wrote to its standard output.
        stdout: String,
    },
}

/// A tool to run, with its arguments.
#[derive(Debug, Clone, PartialEq, Eq)]
pub struct Command {
    pub program: &'static str,
    pub arguments: Vec<&'static str>,
}

/// A tool to run as contracts see it.
pub struct CommandLine {
    pub program: Seq<char>,
    pub arguments: Seq<Seq<char>>,
}

impl View for Command {
    type V = CommandLine;

    open spec fn view(&self) -> CommandLine {
        CommandLine {
            program: self.program@,
            arguments: Seq::new(self.arguments@.len(), |i: int| self.arguments@[i]@),
        }
    }
}

/// A reading, or the failure to get one, as contracts see it: thousandths
/// of a degree, or the kind and text of the failure.
pub open spec fn reading_view(r: Result<Temperature, OcypusError>) -> Result<int, Failure> {
    match r {
        Ok(t) => Ok(t@),
        Err(e) => Err(e@),
    }
}

impl CommandOutcome {
    /// The output of a tool that ran with success; `None` for one that did
    /// not start or that failed.
    pub open spec fn output(self) -> Option<Seq<char>> {
        match self {
            CommandOutcome::Finished { success: true, stdout } => Some(stdout@),
            _ => None,
        }
    }
}

} // verus!
