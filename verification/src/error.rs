use vstd::prelude::*;
use vstd::string::*;

verus! {

/// The kinds of failure, without their text.
#[derive(Clone, Copy, Debug, PartialEq, Eq, Structural)]
pub enum ErrorKind {
    Device,
    Sensor,
    Config,
    Io,
    HidApi,
    TemperatureParse,
    InvalidSensorType,
}

/// A failure as contracts see it: its kind and the text it carries.
pub struct Failure {
    pub kind: ErrorKind,
    pub detail: Seq<char>,
}

/// What can go wrong while reading a sensor, talking to the display or
/// checking a configuration.
#[derive(Clone, Debug, PartialEq, Eq)]
pub enum OcypusError {
    /// The display could not be found, opened or written to.
    Device(String),
    /// A sensor tool is missing, failed, or printed nothing usable.
    Sensor(String),
    /// The configuration is not valid.
    Config(String),
    /// An input or output operation failed.
    Io(String),
    /// The HID layer could not be set up.
    HidApi(String),
    /// A matched temperature text is not a number.
    TemperatureParse(String),
    /// The name is not that of a supported sensor.
    InvalidSensorType(String),
}

impl View for OcypusError {
    type V = Failure;

    open spec fn view(&self) -> Failure {
        match self {
            OcypusError::Device(m) => Failure { kind: ErrorKind::Device, detail: m@ },
            OcypusError::Sensor(m) => Failure { kind: ErrorKind::Sensor, detail: m@ },
            OcypusError::Config(m) => Failure { kind: ErrorKind::Config, detail: m@ },
            OcypusError::Io(m) => Failure { kind: ErrorKind::Io, detail: m@ },
            OcypusError::HidApi(m) => Failure { kind: ErrorKind::HidApi, detail: m@ },
            OcypusError::TemperatureParse(m) => Failure {
                kind: ErrorKind::TemperatureParse,
                detail: m@,
            },
            OcypusError::InvalidSensorType(m) => Failure {
                kind: ErrorKind::InvalidSensorType,
                detail: m@,
            },
        }
    }
}

/// The text that introduces a failure of the given kind.
pub open spec fn kind_prefix(kind: ErrorKind) -> Seq<char> {
    match kind {
        ErrorKind::Device => "Device error: "@,
        ErrorKind::Sensor => "Sensor error: "@,
        ErrorKind::Config => "Configuration error: "@,
        ErrorKind::Io => "I/O error: "@,
        ErrorKind::HidApi => "HID error: "@,
        ErrorKind::TemperatureParse => "Failed to parse temperature: "@,
        ErrorKind::InvalidSensorType => "Invalid sensor type: '"@,
    }
}

/// The text that closes a failure of the given kind.
pub open spec fn kind_suffix(kind: ErrorKind) -> Seq<char> {
    match kind {
        ErrorKind::InvalidSensorType => "'. Supported types: cpu, gpu"@,
        _ => Seq::empty(),
    }
}

/// The full message of a failure: prefix, detail, suffix.
pub open spec fn failure_text(f: Failure) -> Seq<char> {
    kind_prefix(f.kind) + f.detail + kind_suffix(f.kind)
}

impl OcypusError {
    /// The kind of this failure.
    pub fn kind(&self) -> (k: ErrorKind)
        ensures
            k == self@.kind,
    {
        match self {
            OcypusError::Device(_) => ErrorKind::Device,
            OcypusError::Sensor(_) => ErrorKind::Sensor,
            OcypusError::Config(_) => ErrorKind::Config,
            OcypusError::Io(_) => ErrorKind::Io,
            OcypusError::HidApi(_) => ErrorKind::HidApi,
            OcypusError::TemperatureParse(_) => ErrorKind::TemperatureParse,
            OcypusError::InvalidSensorType(_) => ErrorKind::InvalidSensorType,
        }
    }

    /// The text this failure carries, without the words for its kind.
    pub fn detail(&self) -> (d: &str)
        ensures
            d@ == self@.detail,
    {
        match self {
            OcypusError::Device(m) => m.as_str(),
            OcypusError::Sensor(m) => m.as_str(),
            OcypusError::Config(m) => m.as_str(),
            OcypusError::Io(m) => m.as_str(),
            OcypusError::HidApi(m) => m.as_str(),
            OcypusError::TemperatureParse(m) => m.as_str(),
            OcypusError::InvalidSensorType(m) => m.as_str(),
        }
    }

    /// The message shown to a person: the words for the kind around the detail.
    pub fn to_string(&self) -> (s: String)
        ensures
            s@ == failure_text(self@),
    {
        let (prefix, suffix) = match self {
            OcypusError::Device(_) => ("Device error: ", ""),
            OcypusError::Sensor(_) => ("Sensor error: ", ""),
            OcypusError::Config(_) => ("Configuration error: ", ""),
            OcypusError::Io(_) => ("I/O error: ", ""),
            OcypusError::HidApi(_) => ("HID error: ", ""),
            OcypusError::TemperatureParse(_) => ("Failed to parse temperature: ", ""),
            OcypusError::InvalidSensorType(_) => (
                "Invalid sensor type: '",
                "'. Supported types: cpu, gpu",
            ),
        };
        proof {
            reveal_strlit("");
        }
        let mut s = String::from_str(prefix);
        s.append(self.detail());
        s.append(suffix);
        assert(suffix@ == kind_suffix(self@.kind));
        s
    }
}

} // verus!
