use crate::error::{ErrorKind, Failure, OcypusError};
use crate::temperature::Temperature;
use crate::text::{equals, equals_folded, fold, fold_char, folded};
use vstd::prelude::*;
use vstd::string::*;

verus! {

/// Vendor id of the display.
pub const VID: u16 = 0x1a2c;

/// Product id of the display.
pub const PID: u16 = 0x434d;

/// The id that opens every report sent to the display.
pub const REPORT_ID: u8 = 0x07;

/// The length of a report, in bytes.
pub const REPORT_LENGTH: usize = 64;

/// The unit in which the display shows a temperature.
#[derive(Debug, Clone, Copy, PartialEq, Eq, Structural)]
pub enum TemperatureUnit {
    Celsius,
    Fahrenheit,
}

/// The unit that a letter selects: `c` or `f`, in either case.
pub open spec fn unit_of_char(c: char) -> Option<TemperatureUnit> {
    if fold(c) == 'c' {
        Some(TemperatureUnit::Celsius)
    } else if fold(c) == 'f' {
        Some(TemperatureUnit::Fahrenheit)
    } else {
        None
    }
}

/// What is said of a letter that selects no unit.
pub open spec fn invalid_unit_text(c: char) -> Seq<char> {
    "Invalid temperature unit: '"@.push(c) + "'. Use 'c' or 'f'"@
}

impl TemperatureUnit {
    /// The unit that the letter `c` selects, or a configuration error that
    /// names the letter.
    pub fn from_char(c: char) -> (r: Result<TemperatureUnit, OcypusError>)
        ensures
            match r {
                Ok(unit) => unit_of_char(c) == Some(unit),
                Err(e) => unit_of_char(c) is None && e@ == (Failure {
                    kind: ErrorKind::Config,
                    detail: invalid_unit_text(c),
                }),
            },
    {
        let lower = fold_char(c);
        if lower == 'c' {
            Ok(TemperatureUnit::Celsius)
        } else if lower == 'f' {
            Ok(TemperatureUnit::Fahrenheit)
        } else {
            let mut text = String::from_str("Invalid temperature unit: '");
            text.push(c);
            text.append("'. Use 'c' or 'f'");
            Err(OcypusError::Config(text))
        }
    }

    /// The capital letter that stands for the unit.
    pub fn as_char(self) -> (c: char)
        ensures
            c == match self {
                TemperatureUnit::Celsius => 'C',
                TemperatureUnit::Fahrenheit => 'F',
            },
            unit_of_char(c) == Some(self),
    {
        match self {
            TemperatureUnit::Celsius => 'C',
            TemperatureUnit::Fahrenheit => 'F',
        }
    }
}

/// The sensor whose temperature is shown.
#[derive(Debug, Clone, Copy, PartialEq, Eq, Structural)]
pub enum SensorType {
    Cpu,
    Gpu,
}

/// The sensor that a name selects: `cpu` or `gpu`, in any case.
pub open spec fn sensor_of_name(name: Seq<char>) -> Option<SensorType> {
    if folded(name) == "cpu"@ {
        Some(SensorType::Cpu)
    } else if folded(name) == "gpu"@ {
        Some(SensorType::Gpu)
    } else {
        None
    }
}

impl SensorType {
    /// The sensor that `s` names, or an error that carries `s`.
    pub fn from_str(s: &str) -> (r: Result<SensorType, OcypusError>)
        ensures
            match r {
                Ok(sensor) => sensor_of_name(s@) == Some(sensor),
                Err(e) => sensor_of_name(s@) is None && e@ == (Failure {
                    kind: ErrorKind::InvalidSensorType,
                    detail: s@,
                }),
            },
    {
        if equals_folded(s, "cpu") {
            Ok(SensorType::Cpu)
        } else if equals_folded(s, "gpu") {
            Ok(SensorType::Gpu)
        } else {
            Err(OcypusError::InvalidSensorType(String::from_str(s)))
        }
    }

    /// The name of the sensor, in lower case.
    pub fn as_str(&self) -> (name: &'static str)
        ensures
            name@ == match self {
                SensorType::Cpu => "cpu"@,
                SensorType::Gpu => "gpu"@,
            },
    {
        match self {
            SensorType::Cpu => "cpu",
            SensorType::Gpu => "gpu",
        }
    }
}

/// How much the program reports of what it does.
#[derive(Debug, Clone, Copy, PartialEq, Eq, Structural)]
pub enum LogLevel {
    Trace,
    Debug,
    Info,
    Warn,
    Error,
}

/// The level that a name selects; `Info` for a name that selects none.
pub open spec fn level_of_name(name: Seq<char>) -> LogLevel {
    if name == "trace"@ {
        LogLevel::Trace
    } else if name == "debug"@ {
        LogLevel::Debug
    } else if name == "warn"@ {
        LogLevel::Warn
    } else if name == "error"@ {
        LogLevel::Error
    } else {
        LogLevel::Info
    }
}

impl LogLevel {
    /// The level that `name` selects; `Info` for a name that selects none.
    pub fn from_name(name: &str) -> (level: LogLevel)
        ensures
            level == level_of_name(name@),
    {
        if equals(name, "trace") {
            LogLevel::Trace
        } else if equals(name, "debug") {
            LogLevel::Debug
        } else if equals(name, "warn") {
            LogLevel::Warn
        } else if equals(name, "error") {
            LogLevel::Error
        } else {
            LogLevel::Info
        }
    }
}

/// The settings as they are given on the command line, before they are
/// checked.
#[derive(Debug, Clone)]
pub struct Args {
    /// Temperature unit: `c` for Celsius, `f` for Fahrenheit.
    pub unit: char,
    /// Seconds between two readings.
    pub interval: u64,
    /// Readings above this raise a high alert.
    pub high_threshold: Temperature,
    /// Readings below this raise a low alert.
    pub low_threshold: Temperature,
    /// Whether readings are held against the thresholds.
    pub alerts: bool,
    /// The sensor to read: `cpu` or `gpu`.
    pub sensor: String,
    /// The log level: trace, debug, info, warn or error.
    pub log_level: String,
}

/// The settings the monitor runs with.
#[derive(Debug, Clone, Copy, PartialEq, Eq, Structural)]
pub struct Config {
    /// The unit of the display.
    pub temperature_unit: TemperatureUnit,
    /// Seconds between two readings.
    pub update_interval: u64,
    /// Readings above this raise a high alert.
    pub high_threshold: Temperature,
    /// Readings below this raise a low alert.
    pub low_threshold: Temperature,
    /// Whether readings are held against the thresholds.
    pub alerts_enabled: bool,
    /// The sensor to read.
    pub sensor_type: SensorType,
}

/// The configuration that the settings in `args` make, where their unit and
/// sensor both exist.
pub open spec fn config_of_args(args: Args) -> Option<Config> {
    match (unit_of_char(args.unit), sensor_of_name(args.sensor@)) {
        (Some(unit), Some(sensor)) => Some(
            Config {
                temperature_unit: unit,
                update_interval: args.interval,
                high_threshold: args.high_threshold,
                low_threshold: args.low_threshold,
                alerts_enabled: args.alerts,
                sensor_type: sensor,
            },
        ),
        _ => None,
    }
}

/// Why the settings in `args` make no configuration: the unit is looked at
/// before the sensor.
pub open spec fn args_failure(args: Args) -> Failure {
    if unit_of_char(args.unit) is None {
        Failure { kind: ErrorKind::Config, detail: invalid_unit_text(args.unit) }
    } else {
        Failure { kind: ErrorKind::InvalidSensorType, detail: args.sensor@ }
    }
}

impl Default for Config {
    /// Celsius, one reading a second from the CPU, thresholds of 80 and 20
    /// degrees, alerts off.
    fn default() -> (c: Config)
        ensures
            c.temperature_unit == TemperatureUnit::Celsius,
            c.update_interval == 1,
            c.high_threshold@ == 80_000,
            c.low_threshold@ == 20_000,
            !c.alerts_enabled,
            c.sensor_type == SensorType::Cpu,
            c.valid(),
    {
        Config {
            temperature_unit: TemperatureUnit::Celsius,
            update_interval: 1,
            high_threshold: Temperature::from_degrees(80),
            low_threshold: Temperature::from_degrees(20),
            alerts_enabled: false,
            sensor_type: SensorType::Cpu,
        }
    }
}

impl Config {
    /// Whether the monitor can run with these settings: the high threshold
    /// lies above the low one, and the interval is not zero.
    pub open spec fn valid(&self) -> bool {
        self.high_threshold@ > self.low_threshold@ && self.update_interval > 0
    }

    /// What is said of settings that are not valid: the thresholds are
    /// looked at before the interval.
    pub open spec fn invalid_text(&self) -> Seq<char> {
        if self.high_threshold@ <= self.low_threshold@ {
            "High threshold must be greater than low threshold"@
        } else {
            "Update interval must be greater than 0 seconds"@
        }
    }

    /// The configuration that the settings in `args` make; they are not yet
    /// held against each other.
    pub fn from_args(args: &Args) -> (r: Result<Config, OcypusError>)
        ensures
            match r {
                Ok(c) => config_of_args(*args) == Some(c),
                Err(e) => config_of_args(*args) is None && e@ == args_failure(*args),
            },
    {
        let unit = match TemperatureUnit::from_char(args.unit) {
            Ok(unit) => unit,
            Err(e) => {
                return Err(e);
            },
        };
        let sensor = match SensorType::from_str(args.sensor.as_str()) {
            Ok(sensor) => sensor,
            Err(e) => {
                return Err(e);
            },
        };
        Ok(
            Config {
                temperature_unit: unit,
                update_interval: args.interval,
                high_threshold: args.high_threshold,
                low_threshold: args.low_threshold,
                alerts_enabled: args.alerts,
                sensor_type: sensor,
            },
        )
    }

    /// Hands the configuration back where it is valid, and says what is
    /// wrong with it where it is not.
    pub fn validate(self) -> (r: Result<Config, OcypusError>)
        ensures
            match r {
                Ok(c) => self.valid() && c == self,
                Err(e) => !self.valid() && e@ == (Failure {
                    kind: ErrorKind::Config,
                    detail: self.invalid_text(),
                }),
            },
    {
        if self.high_threshold.millis() <= self.low_threshold.millis() {
            return Err(
                OcypusError::Config(
                    String::from_str("High threshold must be greater than low threshold"),
                ),
            );
        }
        if self.update_interval == 0 {
            return Err(
                OcypusError::Config(
                    String::from_str("Update interval must be greater than 0 seconds"),
                ),
            );
        }
        Ok(self)
    }
}

} // verus!
