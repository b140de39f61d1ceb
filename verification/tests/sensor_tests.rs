use ocypus_digital::cpu_sensor::get_cpu_temperature;
use ocypus_digital::error::{ErrorKind, OcypusError};
use ocypus_digital::gpu_sensor::{
    extract_number, get_gpu_temperature, gpu_temp_amd_smi, gpu_temp_nvidia, gpu_temp_rocm,
    gpu_temp_sensors, run,
};
use ocypus_digital::sensor::cpu_sensor::{Capture, CpuSensor};
use ocypus_digital::sensor::gpu_sensor::{GpuProbe, GpuSensor};
use ocypus_digital::sensor::CommandOutcome;
use ocypus_digital::temperature::Temperature;

const INTEL: &str = "coretemp-isa-0000\nAdapter: ISA adapter\nPackage id 0:  +45.0°C  (high = +80.0°C, crit = +100.0°C)\nCore 0:        +43.0°C  (high = +80.0°C, crit = +100.0°C)\n";

const AMD: &str = "k10temp-pci-00c3\nAdapter: PCI adapter\nTctl:         +52.3°C\nTdie:         +42.5°C\n";

const GENERIC: &str = "acpitz-acpi-0\nAdapter: ACPI interface\ntemp1:        +40.0°C  (crit = +119.0°C)\n";

fn ok(text: &str) -> CommandOutcome {
    CommandOutcome::Finished { success: true, stdout: text.to_string() }
}

fn failed(text: &str) -> CommandOutcome {
    CommandOutcome::Finished { success: false, stdout: text.to_string() }
}

fn missing() -> CommandOutcome {
    CommandOutcome::NotStarted("No such file or directory (os error 2)".to_string())
}

fn millis(text: &str) -> Temperature {
    Temperature::parse(text).unwrap()
}

fn sensor(text: &str) -> OcypusError {
    OcypusError::Sensor(text.to_string())
}

#[test]
fn test_cpu_sensor_availability() {
    let available = CpuSensor::is_available(&ok(INTEL));
    assert!(available, "sensors command not available");
}

#[test]
fn test_get_cpu_temperature() {
    let outcome = ok(INTEL);
    if CpuSensor::is_available(&outcome) {
        let temp = CpuSensor::get_temperature(&outcome);
        assert!(temp.is_ok(), "Failed to get CPU temperature: {:?}", temp);

        if let Ok(temp) = temp {
            let temp = temp.millis() as f32 / 1000.0;
            assert!(temp > 0.0, "Temperature should be positive: {}", temp);
            assert!(temp < 150.0, "Temperature seems too high: {}", temp);
        }
    }
}

#[test]
fn test_gpu_sensor_availability() {
    let available = GpuSensor::is_available(&vec![ok("52\n")]);
    assert!(available, "GPU sensor not available");
}

#[test]
fn test_get_gpu_temperature() {
    let outcomes = vec![ok("52\n")];
    if GpuSensor::is_available(&outcomes) {
        let temp = GpuSensor::get_temperature(&outcomes);
        assert!(temp.is_ok(), "Failed to get GPU temperature: {:?}", temp);

        if let Ok(temp) = temp {
            let temp = temp.millis() as f32 / 1000.0;
            assert!(temp > 0.0, "Temperature should be positive: {}", temp);
            assert!(temp < 150.0, "Temperature seems too high: {}", temp);
        }
    }
}

#[test]
fn test_extract_number() {
    assert_eq!(
        GpuSensor::extract_number("Temperature: 45.5°C"),
        Some("45.5".to_string())
    );
    assert_eq!(GpuSensor::extract_number("45°C"), Some("45".to_string()));
    assert_eq!(GpuSensor::extract_number("No numbers here"), None);
    assert_eq!(GpuSensor::extract_number(""), None);
}

#[test]
fn extract_number_takes_one_point_behind_a_digit() {
    assert_eq!(extract_number("1.2.3"), Some("1.2".to_string()));
    assert_eq!(extract_number("45."), Some("45.".to_string()));
    assert_eq!(extract_number("45.C"), Some("45.".to_string()));
    assert_eq!(extract_number("4..5"), Some("4.".to_string()));
    assert_eq!(extract_number(".5"), Some("5".to_string()));
    assert_eq!(extract_number("...7"), Some("7".to_string()));
    assert_eq!(extract_number("a.b"), None);
    assert_eq!(extract_number("."), None);
}

#[test]
fn extract_number_stops_at_the_first_char_behind_the_number() {
    assert_eq!(extract_number("v2 45"), Some("2".to_string()));
    assert_eq!(extract_number("load 87% of 100"), Some("87".to_string()));
    assert_eq!(extract_number("+52.3°C  (high = +80.0°C)"), Some("52.3".to_string()));
    assert_eq!(extract_number("-12"), Some("12".to_string()));
    assert_eq!(extract_number("1,5"), Some("1".to_string()));
    assert_eq!(extract_number("7"), Some("7".to_string()));
    assert_eq!(extract_number("temp٣: 5"), Some("5".to_string()));
}

#[test]
fn what_is_extracted_can_be_read_as_a_temperature() {
    for text in ["Temperature: 45.5°C", "45.", "1.2.3", "x007", "edge 51 C", "9.99999"] {
        let number = extract_number(text).unwrap();
        assert!(Temperature::parse(&number).is_some(), "{}", number);
    }
}

#[test]
fn cpu_reads_the_package_temperature() {
    assert_eq!(CpuSensor::get_temperature(&ok(INTEL)), Ok(millis("45.0")));
}

#[test]
fn cpu_prefers_the_die_temperature_to_the_control_temperature() {
    assert_eq!(CpuSensor::get_temperature(&ok(AMD)), Ok(millis("42.5")));
}

#[test]
fn cpu_reads_the_control_temperature() {
    let text = "k10temp-pci-00c3\nTctl:         +52.3°C\n";
    assert_eq!(CpuSensor::get_temperature(&ok(text)), Ok(millis("52.3")));
}

#[test]
fn cpu_falls_back_to_the_first_sensor() {
    assert_eq!(CpuSensor::get_temperature(&ok(GENERIC)), Ok(millis("40.0")));
}

#[test]
fn cpu_labels_are_tried_in_their_order() {
    let text = "temp1: +40.0°C\nTctl: +52.3°C\nTdie: +42.5°C\nPackage id 0: +45.0°C\n";
    assert_eq!(CpuSensor::read_output(text), Ok(millis("45.0")));
    let text = "temp1: +40.0°C\nTctl: +52.3°C\nTdie: +42.5°C\n";
    assert_eq!(CpuSensor::read_output(text), Ok(millis("42.5")));
    let text = "temp1: +40.0°C\nTctl: +52.3°C\n";
    assert_eq!(CpuSensor::read_output(text), Ok(millis("52.3")));
}

#[test]
fn cpu_reads_numbers_without_a_fraction() {
    assert_eq!(CpuSensor::read_output("Package id 0: +45°C"), Ok(millis("45")));
    assert_eq!(CpuSensor::read_output("Package id 0:+45.25°C"), Ok(millis("45.25")));
}

#[test]
fn cpu_needs_the_sign_and_the_unit() {
    let not_found = Err(sensor("CPU temperature not found in sensors output"));
    assert_eq!(CpuSensor::read_output("Package id 0: 45.0°C"), not_found);
    assert_eq!(CpuSensor::read_output("Package id 0: -5.0°C"), not_found);
    assert_eq!(CpuSensor::read_output("Package id 0: +45.0 C"), not_found);
    assert_eq!(CpuSensor::read_output("Package id 1: +45.0°C"), not_found);
    assert_eq!(CpuSensor::read_output(""), not_found);
}

#[test]
fn cpu_fails_where_the_tool_is_missing() {
    assert_eq!(
        CpuSensor::get_temperature(&missing()),
        Err(sensor(
            "Failed to execute sensors command: No such file or directory (os error 2)"
        ))
    );
    assert!(!CpuSensor::is_available(&missing()));
}

#[test]
fn cpu_fails_where_the_tool_failed() {
    assert_eq!(
        CpuSensor::get_temperature(&failed(INTEL)),
        Err(sensor("sensors command returned non-zero exit status"))
    );
    assert!(!CpuSensor::is_available(&failed(INTEL)));
}

#[test]
fn cpu_is_not_available_where_the_output_holds_no_temperature() {
    assert!(!CpuSensor::is_available(&ok("")));
    assert!(CpuSensor::get_temperature(&ok("")).is_err());
    assert!(!CpuSensor::is_available(&ok("Core 0: +43.0°C\n")));
}

#[test]
fn cpu_is_available_exactly_where_it_can_be_read() {
    for outcome in [
        ok(INTEL),
        ok(AMD),
        ok(GENERIC),
        ok(""),
        ok("Package id 0: 45.0°C"),
        failed(INTEL),
        failed(""),
        missing(),
    ] {
        assert_eq!(
            CpuSensor::is_available(&outcome),
            CpuSensor::get_temperature(&outcome).is_ok(),
            "{:?}",
            outcome
        );
    }
    assert!(CpuSensor::is_available(&ok(GENERIC)));
}

#[test]
fn cpu_command_is_sensors() {
    let command = CpuSensor::command();
    assert_eq!(command.program, "sensors");
    assert!(command.arguments.is_empty());
}

#[test]
fn capture_gives_the_first_group_of_the_first_match() {
    let text = "Tdie: +42.5°C\nTdie: +43.5°C\n";
    assert_eq!(
        CpuSensor::capture(CpuSensor::pattern(1), text),
        Capture::Text("42.5".to_string())
    );
    assert_eq!(CpuSensor::capture(CpuSensor::pattern(0), text), Capture::NoMatch);
    assert_eq!(CpuSensor::capture(r"a(b)?c", "xacx"), Capture::Unset);
    assert_eq!(CpuSensor::capture(r"a(b", "ab"), Capture::Invalid);
    assert_eq!(CpuSensor::capture(r"(\d+)", "ab 12 cd 34"), Capture::Text("12".to_string()));
}

#[test]
fn patterns_by_place() {
    assert!(CpuSensor::pattern(0).starts_with("Package id 0:"));
    assert!(CpuSensor::pattern(1).starts_with("Tdie:"));
    assert!(CpuSensor::pattern(2).starts_with("Tctl:"));
    assert!(CpuSensor::pattern(3).starts_with("temp1:"));
    assert_eq!(CpuSensor::pattern(4), CpuSensor::pattern(3));
    assert_eq!(CpuSensor::pattern(0), r"Package id 0:\s*\+([0-9]+(?:\.[0-9]+)?)°C");
}

#[test]
fn interpret_says_what_a_capture_means() {
    assert_eq!(CpuSensor::interpret(&Capture::NoMatch, "p"), None);
    assert_eq!(
        CpuSensor::interpret(&Capture::Text("45.5".to_string()), "p"),
        Some(Ok(millis("45.5")))
    );
    assert_eq!(
        CpuSensor::interpret(&Capture::Text("4x".to_string()), "p"),
        Some(Err(OcypusError::TemperatureParse(
            "Failed to parse temperature '4x'".to_string()
        )))
    );
    assert_eq!(
        CpuSensor::interpret(&Capture::Unset, "p"),
        Some(Err(sensor("Failed to capture temperature")))
    );
    assert_eq!(
        CpuSensor::interpret(&Capture::Invalid, "a(b"),
        Some(Err(sensor("Failed to compile regex pattern 'a(b'")))
    );
}

#[test]
fn cpu_output_is_read_where_the_tool_ran_with_success() {
    assert_eq!(get_cpu_temperature(&ok(INTEL)), Ok(millis("45.0")));
    assert_eq!(get_cpu_temperature(&ok(AMD)), Ok(millis("42.5")));
    assert_eq!(
        get_cpu_temperature(&ok("nothing")),
        Err(OcypusError::Io("CPU temperature not found in sensors output".to_string()))
    );
}

#[test]
fn cpu_output_of_a_tool_that_failed_is_not_read() {
    assert_eq!(
        get_cpu_temperature(&failed("Package id 0: +45.0°C")),
        Err(OcypusError::Io("sensors command returned non-zero exit status".to_string()))
    );
    assert!(get_cpu_temperature(&failed(INTEL)).is_err());
    assert_eq!(
        get_cpu_temperature(&CommandOutcome::NotStarted("no tool".to_string())),
        Err(OcypusError::Io("Failed to execute sensors command: no tool".to_string()))
    );
}

#[test]
fn nvidia_prints_the_number_on_its_first_line() {
    assert_eq!(GpuSensor::try_nvidia_smi(&ok("52\n")), Ok(millis("52")));
    assert_eq!(GpuSensor::try_nvidia_smi(&ok("  52.5 \r\n61\n")), Ok(millis("52.5")));
    assert_eq!(GpuSensor::try_nvidia_smi(&ok("52")), Ok(millis("52")));
    assert_eq!(GpuSensor::try_nvidia_smi(&ok("\u{a0}52\u{2003}")), Ok(millis("52")));
}

#[test]
fn nvidia_failures() {
    assert_eq!(GpuSensor::try_nvidia_smi(&missing()), Err(sensor("nvidia-smi not available")));
    assert_eq!(GpuSensor::try_nvidia_smi(&failed("52")), Err(sensor("nvidia-smi command failed")));
    assert_eq!(GpuSensor::try_nvidia_smi(&ok("")), Err(sensor("No output from nvidia-smi")));
    assert_eq!(
        GpuSensor::try_nvidia_smi(&ok("[N/A]\n")),
        Err(OcypusError::TemperatureParse(
            "Failed to parse nvidia-smi temperature '[N/A]'".to_string()
        ))
    );
    assert_eq!(
        GpuSensor::try_nvidia_smi(&ok("\n52\n")),
        Err(OcypusError::TemperatureParse(
            "Failed to parse nvidia-smi temperature ''".to_string()
        ))
    );
}

#[test]
fn amd_smi_takes_the_first_line_that_mentions_the_edge() {
    let text = "GPU: 0\n    TEMPERATURE:\n        HOTSPOT: 60 °C\n        EDGE: 51 °C\n        Edge: 40\n";
    assert_eq!(GpuSensor::try_amd_smi(&ok(text)), Ok(millis("51")));
    assert_eq!(GpuSensor::try_amd_smi(&ok("knowledge 7.5")), Ok(millis("7.5")));
}

#[test]
fn amd_smi_passes_over_an_edge_line_without_a_number() {
    let text = "EDGE: N/A\nedge_limit: 99.5\n";
    assert_eq!(GpuSensor::try_amd_smi(&ok(text)), Ok(millis("99.5")));
}

#[test]
fn amd_smi_failures() {
    assert_eq!(GpuSensor::try_amd_smi(&missing()), Err(sensor("amd-smi not available")));
    assert_eq!(GpuSensor::try_amd_smi(&failed("edge 5")), Err(sensor("amd-smi command failed")));
    assert_eq!(
        GpuSensor::try_amd_smi(&ok("HOTSPOT: 60\nEDGE: N/A\n")),
        Err(sensor("No edge temperature found in amd-smi output"))
    );
    assert_eq!(
        GpuSensor::try_amd_smi(&ok("")),
        Err(sensor("No edge temperature found in amd-smi output"))
    );
}

#[test]
fn rocm_smi_takes_the_first_number_of_any_line() {
    assert_eq!(
        GpuSensor::try_rocm_smi(&ok("===== ROCm =====\nTemperature (C): 43.0\nother: 50\n")),
        Ok(millis("43.0"))
    );
    assert_eq!(
        GpuSensor::try_rocm_smi(&ok("GPU[0] : Temperature (Sensor edge) (C): 43.0\n")),
        Ok(millis("0"))
    );
}

#[test]
fn rocm_smi_failures() {
    assert_eq!(GpuSensor::try_rocm_smi(&missing()), Err(sensor("rocm-smi not available")));
    assert_eq!(GpuSensor::try_rocm_smi(&failed("43")), Err(sensor("rocm-smi command failed")));
    assert_eq!(
        GpuSensor::try_rocm_smi(&ok("no\nnumbers\n")),
        Err(sensor("No temperature found in rocm-smi output"))
    );
}

#[test]
fn sensors_takes_lines_that_mention_a_gpu_an_edge_or_a_junction() {
    assert_eq!(
        GpuSensor::try_sensors(&ok("Package id 0: +45.0°C\nJunction: +55.5°C\n")),
        Ok(millis("55.5"))
    );
    assert_eq!(
        GpuSensor::try_sensors(&ok("temp1: +45.0°C\nedge: +48.0°C\njunction: +60.0°C\n")),
        Ok(millis("48.0"))
    );
    assert_eq!(
        GpuSensor::try_sensors(&ok("GPU core: +61.0°C\n")),
        Ok(millis("61.0"))
    );
    assert_eq!(
        GpuSensor::try_sensors(&ok("amdgpu-pci-0300\nedge: +48.0°C\n")),
        Ok(millis("0300"))
    );
}

#[test]
fn sensors_failures() {
    assert_eq!(GpuSensor::try_sensors(&missing()), Err(sensor("sensors command not available")));
    assert_eq!(GpuSensor::try_sensors(&failed("gpu 5")), Err(sensor("sensors command failed")));
    assert_eq!(
        GpuSensor::try_sensors(&ok(INTEL)),
        Err(sensor("No GPU temperature found in sensors output"))
    );
}

#[test]
fn attempt_is_the_probe_of_its_kind() {
    let outcome = ok("edge 51\n");
    assert_eq!(
        GpuSensor::attempt(GpuProbe::NvidiaSmi, &outcome),
        GpuSensor::try_nvidia_smi(&outcome)
    );
    assert_eq!(GpuSensor::attempt(GpuProbe::AmdSmi, &outcome), GpuSensor::try_amd_smi(&outcome));
    assert_eq!(GpuSensor::attempt(GpuProbe::RocmSmi, &outcome), GpuSensor::try_rocm_smi(&outcome));
    assert_eq!(GpuSensor::attempt(GpuProbe::Sensors, &outcome), GpuSensor::try_sensors(&outcome));
    assert_eq!(GpuSensor::read_output(GpuProbe::AmdSmi, "edge 51\n"), Ok(millis("51")));
}

#[test]
fn output_text_is_what_the_probe_reads() {
    assert_eq!(GpuSensor::output_text(GpuProbe::NvidiaSmi, " 52 \n"), Some("52".to_string()));
    assert_eq!(GpuSensor::output_text(GpuProbe::NvidiaSmi, "n/a\n"), Some("n/a".to_string()));
    assert_eq!(GpuSensor::output_text(GpuProbe::NvidiaSmi, ""), None);
    assert_eq!(GpuSensor::output_text(GpuProbe::AmdSmi, "a 1\nEdge 2.5C\n"), Some("2.5".to_string()));
    assert_eq!(GpuSensor::output_text(GpuProbe::RocmSmi, "a\nb 1\n"), Some("1".to_string()));
    assert_eq!(GpuSensor::output_text(GpuProbe::Sensors, "a 1\nb 2\n"), None);
}

#[test]
fn chain_returns_the_second_probe_where_the_first_fails() {
    let outcomes = vec![missing(), ok("EDGE: 55\n")];
    assert_eq!(GpuSensor::get_temperature(&outcomes), Ok(millis("55")));
    assert!(GpuSensor::is_available(&outcomes));
    assert_eq!(GpuSensor::next_probe(&outcomes), None);
}

#[test]
fn chain_fails_where_every_probe_fails() {
    let outcomes = vec![missing(), failed(""), ok("nothing"), ok("nothing")];
    assert_eq!(
        GpuSensor::get_temperature(&outcomes),
        Err(sensor("No GPU temperature found in sensors output"))
    );
    assert!(!GpuSensor::is_available(&outcomes));
    assert_eq!(GpuSensor::next_probe(&outcomes), None);
}

#[test]
fn chain_takes_the_first_reading_in_the_order_of_the_probes() {
    let outcomes = vec![ok("41\n"), ok("edge 42\n"), ok("43\n"), ok("gpu 44\n")];
    assert_eq!(GpuSensor::get_temperature(&outcomes), Ok(millis("41")));
    let outcomes = vec![ok("n/a\n"), ok("edge 42\n"), ok("43\n"), ok("gpu 44\n")];
    assert_eq!(GpuSensor::get_temperature(&outcomes), Ok(millis("42")));
    let outcomes = vec![ok("n/a\n"), ok("hot 42\n"), ok("43\n"), ok("gpu 44\n")];
    assert_eq!(GpuSensor::get_temperature(&outcomes), Ok(millis("43")));
    let outcomes = vec![ok("n/a\n"), ok("hot 42\n"), ok("none\n"), ok("gpu 44\n")];
    assert_eq!(GpuSensor::get_temperature(&outcomes), Ok(millis("44")));
}

#[test]
fn chain_reports_the_failure_of_the_last_probe_that_ran() {
    assert_eq!(
        GpuSensor::get_temperature(&vec![missing()]),
        Err(sensor("nvidia-smi not available"))
    );
    assert_eq!(
        GpuSensor::get_temperature(&vec![missing(), failed("")]),
        Err(sensor("amd-smi command failed"))
    );
    assert_eq!(
        GpuSensor::get_temperature(&vec![]),
        Err(sensor("No GPU tool has been run"))
    );
}

#[test]
fn chain_looks_at_no_more_outcomes_than_there_are_probes() {
    let outcomes = vec![missing(), missing(), missing(), missing(), ok("gpu 44\n")];
    assert_eq!(
        GpuSensor::get_temperature(&outcomes),
        Err(sensor("sensors command not available"))
    );
}

#[test]
fn next_probe_follows_the_order() {
    let mut outcomes = vec![];
    assert_eq!(GpuSensor::next_probe(&outcomes), Some(GpuProbe::NvidiaSmi));
    outcomes.push(missing());
    assert_eq!(GpuSensor::next_probe(&outcomes), Some(GpuProbe::AmdSmi));
    outcomes.push(missing());
    assert_eq!(GpuSensor::next_probe(&outcomes), Some(GpuProbe::RocmSmi));
    outcomes.push(missing());
    assert_eq!(GpuSensor::next_probe(&outcomes), Some(GpuProbe::Sensors));
    outcomes.push(missing());
    assert_eq!(GpuSensor::next_probe(&outcomes), None);
}

#[test]
fn probes_by_place_and_their_commands() {
    assert_eq!(GpuProbe::at(0), GpuProbe::NvidiaSmi);
    assert_eq!(GpuProbe::at(1), GpuProbe::AmdSmi);
    assert_eq!(GpuProbe::at(2), GpuProbe::RocmSmi);
    assert_eq!(GpuProbe::at(3), GpuProbe::Sensors);
    assert_eq!(GpuProbe::at(9), GpuProbe::Sensors);

    let nvidia = GpuProbe::NvidiaSmi.command();
    assert_eq!(nvidia.program, "nvidia-smi");
    assert_eq!(
        nvidia.arguments,
        vec!["--query-gpu=temperature.gpu", "--format=csv,noheader,nounits"]
    );
    let amd = GpuProbe::AmdSmi.command();
    assert_eq!(amd.program, "amd-smi");
    assert_eq!(amd.arguments, vec!["metric", "--temperature"]);
    let rocm = GpuProbe::RocmSmi.command();
    assert_eq!(rocm.program, "rocm-smi");
    assert_eq!(rocm.arguments, vec!["--showtemp"]);
    let sensors = GpuProbe::Sensors.command();
    assert_eq!(sensors.program, "sensors");
    assert!(sensors.arguments.is_empty());
}

#[test]
fn run_gives_the_output_of_a_tool_that_ran_with_success() {
    assert_eq!(run(&ok("text")), Some("text".to_string()));
    assert_eq!(run(&failed("text")), None);
    assert_eq!(run(&missing()), None);
}

#[test]
fn texts_of_the_tools() {
    assert_eq!(gpu_temp_nvidia(&ok(" 52 \n53\n")), Some("52".to_string()));
    assert_eq!(gpu_temp_nvidia(&ok("[N/A]\n")), Some("[N/A]".to_string()));
    assert_eq!(gpu_temp_nvidia(&ok("")), None);
    assert_eq!(gpu_temp_nvidia(&failed("52")), None);
    assert_eq!(gpu_temp_amd_smi(&ok("hot 60\nEDGE: 51 C\n")), Some("51".to_string()));
    assert_eq!(gpu_temp_amd_smi(&ok("hot 60\n")), None);
    assert_eq!(gpu_temp_rocm(&ok("temp\n43.5c\n")), Some("43.5".to_string()));
    assert_eq!(gpu_temp_rocm(&missing()), None);
    assert_eq!(gpu_temp_sensors(&ok("temp1: 40\njunction: +60.5\n")), Some("60.5".to_string()));
    assert_eq!(gpu_temp_sensors(&ok("temp1: 40\n")), None);
}

#[test]
fn the_first_tool_with_a_reading_decides() {
    assert_eq!(get_gpu_temperature(&vec![ok("52\n")]), Ok(millis("52")));
    assert_eq!(get_gpu_temperature(&vec![missing(), ok("edge 51\n")]), Ok(millis("51")));
    assert_eq!(
        get_gpu_temperature(&vec![ok("41\n"), ok("edge 42\n"), ok("43\n"), ok("gpu 44\n")]),
        Ok(millis("41"))
    );
}

#[test]
fn a_tool_whose_output_holds_no_number_is_passed_over() {
    assert_eq!(
        get_gpu_temperature(&vec![ok("N/A\n"), ok("edge: 55.0 C\n")]),
        Ok(millis("55.0"))
    );
    assert_eq!(get_gpu_temperature(&vec![ok("[N/A]\n"), ok("edge 51\n")]), Ok(millis("51")));
    assert_eq!(
        get_gpu_temperature(&vec![ok("\n"), failed("edge 51\n"), ok("t 43.5\n")]),
        Ok(millis("43.5"))
    );
    assert_eq!(
        get_gpu_temperature(&vec![ok("N/A\n"), ok("edge: 55.0 C\n")]),
        GpuSensor::get_temperature(&vec![ok("N/A\n"), ok("edge: 55.0 C\n")])
    );
}

#[test]
fn no_tool_with_a_reading_is_one_failure() {
    let nothing = Err(OcypusError::Io("GPU temperature not found or parsing failed".to_string()));
    assert_eq!(get_gpu_temperature(&vec![ok("[N/A]\n")]), nothing);
    assert_eq!(get_gpu_temperature(&vec![ok("[N/A]\n"), ok("hot 60\n")]), nothing);
    assert_eq!(get_gpu_temperature(&vec![missing(), missing(), missing(), missing()]), nothing);
    assert_eq!(get_gpu_temperature(&vec![]), nothing);
    assert_eq!(get_gpu_temperature(&vec![]).unwrap_err().kind(), ErrorKind::Io);
}
