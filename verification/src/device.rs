use crate::config::{TemperatureUnit, PID, REPORT_ID, REPORT_LENGTH, VID};
use crate::error::{ErrorKind, Failure, OcypusError};
use crate::temperature::{fahrenheit_millis, Temperature};
use vstd::prelude::*;
use vstd::string::*;

verus! {

/// The highest number that the three digits of the display can show.
pub const DISPLAY_MAX: u16 = 999;

/// Where in a report the hundreds stand; the tens and the ones follow.
pub const DIGITS_OFFSET: usize = 3;

/// The temperature in the unit of the display, in thousandths of a degree.
pub open spec fn display_millis(celsius_millis: int, unit: TemperatureUnit) -> int {
    match unit {
        TemperatureUnit::Celsius => celsius_millis,
        TemperatureUnit::Fahrenheit => fahrenheit_millis(celsius_millis),
    }
}

/// The number that the display shows for a reading: the temperature in the
/// unit of the display, held to the range from 0 to 999 degrees, without
/// what stands behind the point.
pub open spec fn display_value(celsius_millis: int, unit: TemperatureUnit) -> int {
    let shown = display_millis(celsius_millis, unit);
    if shown < 0 {
        0
    } else if shown > DISPLAY_MAX * 1000 {
        DISPLAY_MAX as int
    } else {
        shown / 1000
    }
}

/// The report that makes the display show `value`: the report id, two
/// bytes of zero, the hundreds, tens and ones of `value`, and zero up to
/// the end.
pub open spec fn report_bytes(value: int) -> Seq<u8> {
    Seq::new(
        REPORT_LENGTH as nat,
        |i: int|
            if i == 0 {
                REPORT_ID
            } else if i == DIGITS_OFFSET {
                (value / 100) as u8
            } else if i == DIGITS_OFFSET + 1 {
                (value / 10 % 10) as u8
            } else if i == DIGITS_OFFSET + 2 {
                (value % 10) as u8
            } else {
                0u8
            },
    )
}

/// Every report has the length of a report and begins with the report id;
/// its three digit bytes are decimal digits that spell the number shown,
/// which lies between 0 and 999; every other byte is zero.
pub proof fn lemma_report_shape(celsius_millis: int, unit: TemperatureUnit)
    ensures
        0 <= display_value(celsius_millis, unit) <= DISPLAY_MAX,
        report_bytes(display_value(celsius_millis, unit)).len() == REPORT_LENGTH,
        report_bytes(display_value(celsius_millis, unit))[0] == REPORT_ID,
        report_bytes(display_value(celsius_millis, unit))[3] <= 9,
        report_bytes(display_value(celsius_millis, unit))[4] <= 9,
        report_bytes(display_value(celsius_millis, unit))[5] <= 9,
        report_bytes(display_value(celsius_millis, unit))[3] * 100 + report_bytes(
            display_value(celsius_millis, unit),
        )[4] * 10 + report_bytes(display_value(celsius_millis, unit))[5] == display_value(
            celsius_millis,
            unit,
        ),
        forall|i: int|
            0 < i < REPORT_LENGTH && !(3 <= i <= 5) ==> #[trigger] report_bytes(
                display_value(celsius_millis, unit),
            )[i] == 0,
{
}

/// A reading at or below zero in the unit of the display shows as 000, and
/// one at or above 999 degrees as 999.
pub proof fn lemma_display_clamps(celsius_millis: int, unit: TemperatureUnit)
    ensures
        display_millis(celsius_millis, unit) <= 0 ==> display_value(celsius_millis, unit) == 0,
        display_millis(celsius_millis, unit) >= DISPLAY_MAX * 1000 ==> display_value(
            celsius_millis,
            unit,
        ) == DISPLAY_MAX,
{
}

/// Builds the report that makes the display show the reading `temp_celsius`
/// in `unit`. It never fails.
pub fn build_temperature_report(temp_celsius: Temperature, unit: TemperatureUnit) -> (r: Result<
    [u8; 64],
    OcypusError,
>)
    ensures
        r is Ok,
        r->Ok_0@ == report_bytes(display_value(temp_celsius@, unit)),
        r->Ok_0@.len() == REPORT_LENGTH,
        r->Ok_0[0] == REPORT_ID,
        r->Ok_0[3] <= 9 && r->Ok_0[4] <= 9 && r->Ok_0[5] <= 9,
{
    let shown = match unit {
        TemperatureUnit::Celsius => temp_celsius,
        TemperatureUnit::Fahrenheit => temp_celsius.to_fahrenheit(),
    };
    let millis = shown.millis();
    let value: u16 = if millis < 0 {
        0
    } else if millis > (DISPLAY_MAX as i64) * 1000 {
        DISPLAY_MAX
    } else {
        (millis / 1000) as u16
    };
    assert(value == display_value(temp_celsius@, unit));
    let mut report: [u8; 64] = [0u8; 64];
    report[0] = REPORT_ID;
    report[DIGITS_OFFSET] = (value / 100) as u8;
    report[DIGITS_OFFSET + 1] = ((value / 10) % 10) as u8;
    report[DIGITS_OFFSET + 2] = (value % 10) as u8;
    assert(report@ =~= report_bytes(value as int));
    Ok(report)
}

/// What is known of a HID device before it is opened.
#[derive(Debug, Clone, PartialEq, Eq)]
pub struct DeviceInfo {
    pub vendor_id: u16,
    pub product_id: u16,
    /// The path under which the system lists the device.
    pub path: String,
}

impl DeviceInfo {
    /// Whether the device has the ids of the display.
    pub open spec fn is_display(&self) -> bool {
        self.vendor_id == VID && self.product_id == PID
    }

    /// Whether the device has the ids of the display.
    pub fn matches(&self) -> (b: bool)
        ensures
            b == self.is_display(),
    {
        self.vendor_id == VID && self.product_id == PID
    }
}

/// The places in `devices` of those with the ids of the display, in the
/// order of `devices`.
pub open spec fn candidates(devices: Seq<DeviceInfo>) -> Seq<int>
    decreases devices.len(),
{
    if devices.len() == 0 {
        Seq::empty()
    } else if devices.last().is_display() {
        candidates(devices.drop_last()).push(devices.len() - 1)
    } else {
        candidates(devices.drop_last())
    }
}

/// How many of the attempts at the start of `opened` failed, up to the first
/// one that did not.
pub open spec fn failures_before_success(opened: Seq<bool>) -> int
    decreases opened.len(),
{
    if opened.len() == 0 || opened[0] {
        0
    } else {
        1 + failures_before_success(opened.drop_first())
    }
}

/// What to do next to get a connection.
#[derive(Debug, Clone, Copy, PartialEq, Eq, Structural)]
pub enum ConnectStep {
    /// Try to open the device at this place of the list.
    Open(usize),
    /// The device at this place of the list is open: the connection stands.
    Connected(usize),
}

/// What `connect` answers, as contracts see it.
pub enum ConnectView {
    Open(int),
    Connected(int),
    NotFound,
}

/// What follows from the list of devices and from the attempts made so far
/// to open the candidates among them, `opened[k]` telling whether candidate
/// `k` could be opened: the first candidate that could be opened is the
/// connection; where none could, the next candidate is tried; where none is
/// left, no display is found.
pub open spec fn connect_spec(devices: Seq<DeviceInfo>, opened: Seq<bool>) -> ConnectView {
    let found = candidates(devices);
    let failed = failures_before_success(opened);
    if failed < opened.len() && failed < found.len() {
        ConnectView::Connected(found[failed])
    } else if opened.len() < found.len() {
        ConnectView::Open(found[opened.len() as int])
    } else {
        ConnectView::NotFound
    }
}

/// The answer of `connect` as contracts see it.
pub open spec fn connect_view(r: Result<ConnectStep, OcypusError>) -> ConnectView {
    match r {
        Ok(ConnectStep::Open(i)) => ConnectView::Open(i as int),
        Ok(ConnectStep::Connected(i)) => ConnectView::Connected(i as int),
        Err(_) => ConnectView::NotFound,
    }
}

/// Whether the answer of `connect` fits the list: a step names a place in
/// the list at which a display stands, and a failure says that no display
/// is found.
pub open spec fn well_placed(
    r: Result<ConnectStep, OcypusError>,
    devices: Seq<DeviceInfo>,
) -> bool {
    match r {
        Ok(ConnectStep::Open(i)) => i < devices.len() && devices[i as int].is_display(),
        Ok(ConnectStep::Connected(i)) => i < devices.len() && devices[i as int].is_display(),
        Err(e) => e@ == not_found(),
    }
}

/// What to say where no display is found.
pub open spec fn not_found() -> Failure {
    Failure { kind: ErrorKind::Device, detail: "No Ocypus Iota L24 device found"@ }
}

/// What to say of a write to a display that is not connected.
pub open spec fn not_connected() -> Failure {
    Failure { kind: ErrorKind::Device, detail: "Device not connected"@ }
}

/// Every candidate is a place in the list, and stands there for a display;
/// the candidates come in rising order.
pub proof fn lemma_candidates(devices: Seq<DeviceInfo>)
    ensures
        candidates(devices).len() <= devices.len(),
        forall|k: int|
            0 <= k < candidates(devices).len() ==> 0 <= #[trigger] candidates(devices)[k]
                < devices.len() && devices[candidates(devices)[k]].is_display(),
        forall|j: int, k: int|
            0 <= j < k < candidates(devices).len() ==> candidates(devices)[j] < candidates(
                devices,
            )[k],
    decreases devices.len(),
{
    if devices.len() > 0 {
        let init = devices.drop_last();
        lemma_candidates(init);
        assert forall|k: int| 0 <= k < candidates(devices).len() implies 0
            <= #[trigger] candidates(devices)[k] < devices.len() && devices[candidates(
            devices,
        )[k]].is_display() by {
            if k < candidates(init).len() {
                assert(candidates(devices)[k] == candidates(init)[k]);
                assert(init[candidates(init)[k]] == devices[candidates(init)[k]]);
            }
        }
        assert forall|j: int, k: int| 0 <= j < k < candidates(devices).len() implies candidates(
            devices,
        )[j] < candidates(devices)[k] by {
            assert(candidates(devices)[j] == candidates(init)[j]);
            if k < candidates(init).len() {
                assert(candidates(devices)[k] == candidates(init)[k]);
            }
        }
    }
}

/// Attempts that are known one by one to have failed count as failures.
proof fn lemma_failures(opened: Seq<bool>, k: int)
    requires
        0 <= k <= opened.len(),
        forall|j: int| 0 <= j < k ==> !opened[j],
        k == opened.len() || opened[k],
    ensures
        failures_before_success(opened) == k,
    decreases k,
{
    if k > 0 {
        let rest = opened.drop_first();
        assert forall|j: int| 0 <= j < k - 1 implies !rest[j] by {
            assert(rest[j] == opened[j + 1]);
        }
        lemma_failures(rest, k - 1);
    }
}

/// The first candidate that could be opened is the connection, whatever came
/// of the attempts behind it.
pub proof fn lemma_first_opened_connects(devices: Seq<DeviceInfo>, opened: Seq<bool>, k: int)
    requires
        0 <= k < opened.len(),
        k < candidates(devices).len(),
        opened[k],
        forall|j: int| 0 <= j < k ==> !opened[j],
    ensures
        connect_spec(devices, opened) == ConnectView::Connected(candidates(devices)[k]),
{
    lemma_failures(opened, k);
}

/// Where every candidate was tried and none could be opened, no display is
/// found; so too where the list holds no candidate.
pub proof fn lemma_none_opened(devices: Seq<DeviceInfo>, opened: Seq<bool>)
    requires
        opened.len() >= candidates(devices).len(),
        forall|j: int| 0 <= j < candidates(devices).len() ==> !opened[j],
    ensures
        connect_spec(devices, opened) == ConnectView::NotFound,
{
    let n = candidates(devices).len() as int;
    if failures_before_success(opened) < n {
        lemma_failures_bound(opened);
    }
}

/// The attempts counted as failures did fail, and the count stops at an
/// attempt that did not, or at the end.
pub proof fn lemma_failures_bound(opened: Seq<bool>)
    ensures
        0 <= failures_before_success(opened) <= opened.len(),
        forall|j: int| 0 <= j < failures_before_success(opened) ==> !opened[j],
        failures_before_success(opened) < opened.len() ==> opened[failures_before_success(opened)],
    decreases opened.len(),
{
    if opened.len() > 0 && !opened[0] {
        let rest = opened.drop_first();
        lemma_failures_bound(rest);
        assert forall|j: int| 0 <= j < failures_before_success(opened) implies !opened[j] by {
            if j > 0 {
                assert(opened[j] == rest[j - 1]);
            }
        }
        if failures_before_success(opened) < opened.len() {
            assert(opened[failures_before_success(opened)] == rest[failures_before_success(rest)]);
        }
    }
}

/// The connection to the display: whether it stands, and what to do to get
/// it and to use it. The handle itself is with the caller.
#[derive(Debug)]
pub struct DeviceManager {
    connected: bool,
}

impl DeviceManager {
    /// Whether the connection stands.
    pub closed spec fn connected(&self) -> bool {
        self.connected
    }

    /// The manager of a display that is not connected yet, where the HID
    /// layer could be set up; the failure of the HID layer where it could
    /// not, `init` holding what it said.
    pub fn new(init: Result<(), String>) -> (r: Result<DeviceManager, OcypusError>)
        ensures
            match r {
                Ok(manager) => init is Ok && !manager.connected(),
                Err(e) => init is Err && e@ == (Failure {
                    kind: ErrorKind::HidApi,
                    detail: init->Err_0@,
                }),
            },
    {
        match init {
            Ok(_) => Ok(DeviceManager { connected: false }),
            Err(reason) => Err(OcypusError::HidApi(reason)),
        }
    }

    /// The places in `devices` of those with the ids of the display.
    fn find_candidates(devices: &Vec<DeviceInfo>) -> (found: Vec<usize>)
        ensures
            found@.len() == candidates(devices@).len(),
            forall|k: int| 0 <= k < found@.len() ==> found@[k] == candidates(devices@)[k],
    {
        let mut found: Vec<usize> = Vec::new();
        let mut i: usize = 0;
        assert(devices@.take(0) == Seq::<DeviceInfo>::empty());
        while i < devices.len()
            invariant
                i <= devices.len(),
                found@.len() == candidates(devices@.take(i as int)).len(),
                forall|k: int|
                    0 <= k < found@.len() ==> found@[k] == candidates(devices@.take(i as int))[k],
            decreases devices.len() - i,
        {
            assert(devices@.take(i + 1).drop_last() == devices@.take(i as int));
            assert(devices@.take(i + 1).last() == devices@[i as int]);
            if devices[i].matches() {
                found.push(i);
            }
            i += 1;
        }
        assert(devices@.take(devices@.len() as int) == devices@);
        found
    }

    /// How many of the attempts at the start of `opened` failed.
    fn count_failures(opened: &Vec<bool>) -> (failed: usize)
        ensures
            failed == failures_before_success(opened@),
            failed <= opened.len(),
            failed < opened.len() ==> opened@[failed as int],
    {
        let mut i: usize = 0;
        assert(opened@.skip(0) == opened@);
        while i < opened.len() && !opened[i]
            invariant
                i <= opened.len(),
                failures_before_success(opened@) == i + failures_before_success(
                    opened@.skip(i as int),
                ),
            decreases opened.len() - i,
        {
            assert(opened@.skip(i as int)[0] == opened@[i as int]);
            assert(opened@.skip(i as int).drop_first() == opened@.skip(i + 1));
            i += 1;
        }
        proof {
            if i < opened.len() {
                assert(opened@.skip(i as int)[0] == opened@[i as int]);
            }
        }
        i
    }

    /// The next step towards a connection.
    fn next_step(devices: &Vec<DeviceInfo>, opened: &Vec<bool>) -> (r: Result<
        ConnectStep,
        OcypusError,
    >)
        ensures
            connect_view(r) == connect_spec(devices@, opened@),
            well_placed(r, devices@),
    {
        let found = DeviceManager::find_candidates(devices);
        let failed = DeviceManager::count_failures(opened);
        proof {
            lemma_candidates(devices@);
        }
        if failed < opened.len() && failed < found.len() {
            Ok(ConnectStep::Connected(found[failed]))
        } else if opened.len() < found.len() {
            Ok(ConnectStep::Open(found[opened.len()]))
        } else {
            Err(OcypusError::Device(String::from_str("No Ocypus Iota L24 device found")))
        }
    }

    /// Says what to do next to connect to the display. `devices` are the HID
    /// devices of the host; `opened` holds how the attempts went so far to
    /// open the candidates among them, one after the other. The connection
    /// stands once a candidate could be opened, and is left as it was
    /// before.
    pub fn connect(&mut self, devices: &Vec<DeviceInfo>, opened: &Vec<bool>) -> (r: Result<
        ConnectStep,
        OcypusError,
    >)
        ensures
            connect_view(r) == connect_spec(devices@, opened@),
            well_placed(r, devices@),
            final(self).connected() == (old(self).connected() || r is Ok && r->Ok_0 is Connected),
    {
        let step = DeviceManager::next_step(devices, opened);
        if let Ok(ConnectStep::Connected(_)) = step {
            self.connected = true;
        }
        step
    }

    /// Builds the report for the reading `temp_celsius`, to be written to
    /// the display; fails where the display is not connected.
    pub fn send_temperature(&self, temp_celsius: Temperature, unit: TemperatureUnit) -> (r: Result<
        [u8; 64],
        OcypusError,
    >)
        ensures
            match r {
                Ok(report) => self.connected() && report@ == report_bytes(
                    display_value(temp_celsius@, unit),
                ),
                Err(e) => !self.connected() && e@ == not_connected(),
            },
    {
        if !self.connected {
            return Err(OcypusError::Device(String::from_str("Device not connected")));
        }
        build_temperature_report(temp_celsius, unit)
    }

    /// Takes note of how the write of a report went: `Ok` with the number of
    /// bytes written, or `Err` with what the device said. A write of fewer
    /// bytes than a report has still counts as sent, and `Ok(false)` tells
    /// of it. After a failed write the connection no longer stands.
    pub fn written(&mut self, outcome: &Result<usize, String>) -> (r: Result<bool, OcypusError>)
        ensures
            match r {
                Ok(complete) => outcome is Ok && complete == (outcome->Ok_0 == REPORT_LENGTH)
                    && final(self).connected() == old(self).connected(),
                Err(e) => outcome is Err && !final(self).connected() && e@ == (Failure {
                    kind: ErrorKind::Device,
                    detail: "Failed to write to device: "@ + outcome->Err_0@,
                }),
            },
    {
        match outcome {
            Ok(count) => Ok(*count == REPORT_LENGTH),
            Err(reason) => {
                self.connected = false;
                let mut text = String::from_str("Failed to write to device: ");
                text.append(reason.as_str());
                Err(OcypusError::Device(text))
            },
        }
    }

    /// Whether the connection stands.
    pub fn is_connected(&self) -> (b: bool)
        ensures
            b == self.connected(),
    {
        self.connected
    }

    /// Gives the connection up and says what to do next to get a new one,
    /// as `connect` does. The connection stands once a candidate could be
    /// opened.
    pub fn reconnect(&mut self, devices: &Vec<DeviceInfo>, opened: &Vec<bool>) -> (r: Result<
        ConnectStep,
        OcypusError,
    >)
        ensures
            connect_view(r) == connect_spec(devices@, opened@),
            well_placed(r, devices@),
            final(self).connected() == (r is Ok && r->Ok_0 is Connected),
    {
        self.connected = false;
        self.connect(devices, opened)
    }
}

} // verus!
