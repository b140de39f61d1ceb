use crate::config::{Config, SensorType, TemperatureUnit};
use crate::error::{ErrorKind, Failure, OcypusError};
use crate::sensor::cpu_sensor::{cpu_reading, CpuSensor};
use crate::sensor::gpu_sensor::{gpu_reading, next_probe_spec, GpuSensor};
use crate::sensor::{reading_view, Command, CommandLine, CommandOutcome};
use crate::temperature::{fahrenheit_millis, saturate, Temperature};
use vstd::prelude::*;
use vstd::string::*;

verus! {

/// A reading that lies beyond a threshold.
#[derive(Debug, Clone, Copy, PartialEq, Eq, Structural)]
pub enum Alert {
    /// The reading lies above the high threshold.
    High,
    /// The reading lies below the low threshold.
    Low,
}

/// The alert that a reading in Celsius raises: none where alerts are off; a
/// high alert above the high threshold, else a low alert below the low one.
/// Nothing but the reading and the settings counts.
pub open spec fn alert_for(celsius_millis: int, config: Config) -> Option<Alert> {
    if !config.alerts_enabled {
        None
    } else if celsius_millis > config.high_threshold@ {
        Some(Alert::High)
    } else if celsius_millis < config.low_threshold@ {
        Some(Alert::Low)
    } else {
        None
    }
}

/// Seconds to rest after a reconnection that failed.
pub const RECONNECT_BACKOFF_SECS: u64 = 5;

/// Where the side that polls the sensor stands.
#[derive(Debug, Clone, Copy, PartialEq, Eq, Structural)]
pub enum ProducerState {
    /// A reading is being taken.
    Polling,
    /// A reading is being handed over.
    Delivering,
    /// The interval between two readings is running.
    Sleeping,
    /// Nobody takes the readings any more.
    Stopped,
}

/// What can happen to the side that polls the sensor.
#[derive(Debug, Clone, Copy, PartialEq, Eq, Structural)]
pub enum ProducerEvent {
    /// The sensor gave this reading, in Celsius.
    Reading(Temperature),
    /// The sensor gave no reading.
    ReadFailed,
    /// The reading was handed over.
    Delivered,
    /// The reading could not be handed over: the other side is gone.
    Undelivered,
    /// The interval is over.
    Woke,
}

/// What the side that polls the sensor does next.
#[derive(Debug, Clone, Copy, PartialEq, Eq, Structural)]
pub enum ProducerAction {
    /// Take a reading.
    Poll,
    /// Raise the alert, if there is one, and hand the reading over.
    Deliver(Temperature, Option<Alert>),
    /// Rest for this many seconds.
    Sleep(u64),
    /// End the polling.
    Stop,
    /// Nothing: the event does not belong to the state.
    Wait,
}

/// The step of the side that polls the sensor. A reading is held against
/// the thresholds and handed over; without a reading the cycle is skipped.
/// Either way the interval follows, and then the next reading. The polling
/// ends when a reading cannot be handed over.
pub open spec fn producer_next(config: Config, state: ProducerState, event: ProducerEvent) -> (
    ProducerState,
    ProducerAction,
) {
    match (state, event) {
        (ProducerState::Polling, ProducerEvent::Reading(t)) => (
            ProducerState::Delivering,
            ProducerAction::Deliver(t, alert_for(t@, config)),
        ),
        (ProducerState::Polling, ProducerEvent::ReadFailed) => (
            ProducerState::Sleeping,
            ProducerAction::Sleep(config.update_interval),
        ),
        (ProducerState::Delivering, ProducerEvent::Delivered) => (
            ProducerState::Sleeping,
            ProducerAction::Sleep(config.update_interval),
        ),
        (ProducerState::Delivering, ProducerEvent::Undelivered) => (
            ProducerState::Stopped,
            ProducerAction::Stop,
        ),
        (ProducerState::Sleeping, ProducerEvent::Woke) => (
            ProducerState::Polling,
            ProducerAction::Poll,
        ),
        (ProducerState::Stopped, _) => (ProducerState::Stopped, ProducerAction::Stop),
        _ => (state, ProducerAction::Wait),
    }
}

/// Where the side that writes to the display stands.
#[derive(Debug, Clone, Copy, PartialEq, Eq, Structural)]
pub enum ConsumerState {
    /// The next reading is awaited.
    Idle,
    /// This reading is being sent for the first time.
    Sending(Temperature),
    /// The first sending of this reading failed; the display is being
    /// connected anew.
    Reconnecting(Temperature),
    /// This reading is being sent once more, on the new connection.
    Retrying(Temperature),
    /// No readings come any more.
    Stopped,
}

/// What can happen to the side that writes to the display.
#[derive(Debug, Clone, Copy, PartialEq, Eq, Structural)]
pub enum ConsumerEvent {
    /// This reading arrived.
    Reading(Temperature),
    /// The report was written.
    Sent,
    /// The report could not be written.
    SendFailed,
    /// The display is connected anew.
    Reconnected,
    /// The display could not be connected anew.
    ReconnectFailed,
    /// The side that polls the sensor is gone.
    Closed,
}

/// What the side that writes to the display does next.
#[derive(Debug, Clone, Copy, PartialEq, Eq, Structural)]
pub enum ConsumerAction {
    /// Wait for the next reading.
    Receive,
    /// Encode this reading and write it to the display.
    Send(Temperature),
    /// Give the connection up and connect anew.
    Reconnect,
    /// Rest for this many seconds, then wait for the next reading.
    Backoff(u64),
    /// End the loop.
    Stop,
    /// Nothing: the event does not belong to the state.
    Wait,
}

/// The step of the side that writes to the display. Each reading is sent.
/// After a failed write the display is connected anew, and the reading is
/// sent once more; if that fails too, the reading is dropped. Where the
/// display cannot be connected anew, the reading is dropped and a rest of
/// five seconds follows. The loop ends when the other side is gone.
pub open spec fn consumer_next(state: ConsumerState, event: ConsumerEvent) -> (
    ConsumerState,
    ConsumerAction,
) {
    match (state, event) {
        (ConsumerState::Stopped, _) => (ConsumerState::Stopped, ConsumerAction::Stop),
        (_, ConsumerEvent::Closed) => (ConsumerState::Stopped, ConsumerAction::Stop),
        (ConsumerState::Idle, ConsumerEvent::Reading(t)) => (
            ConsumerState::Sending(t),
            ConsumerAction::Send(t),
        ),
        (ConsumerState::Sending(_), ConsumerEvent::Sent) => (
            ConsumerState::Idle,
            ConsumerAction::Receive,
        ),
        (ConsumerState::Sending(t), ConsumerEvent::SendFailed) => (
            ConsumerState::Reconnecting(t),
            ConsumerAction::Reconnect,
        ),
        (ConsumerState::Reconnecting(t), ConsumerEvent::Reconnected) => (
            ConsumerState::Retrying(t),
            ConsumerAction::Send(t),
        ),
        (ConsumerState::Reconnecting(_), ConsumerEvent::ReconnectFailed) => (
            ConsumerState::Idle,
            ConsumerAction::Backoff(RECONNECT_BACKOFF_SECS),
        ),
        (ConsumerState::Retrying(_), ConsumerEvent::Sent) => (
            ConsumerState::Idle,
            ConsumerAction::Receive,
        ),
        (ConsumerState::Retrying(_), ConsumerEvent::SendFailed) => (
            ConsumerState::Idle,
            ConsumerAction::Receive,
        ),
        _ => (state, ConsumerAction::Wait),
    }
}

/// The step of the side that writes to the display: the state that follows
/// `state` on `event`, and what to do next.
pub fn consumer_step(state: ConsumerState, event: ConsumerEvent) -> (r: (
    ConsumerState,
    ConsumerAction,
))
    ensures
        r == consumer_next(state, event),
{
    match (state, event) {
        (ConsumerState::Stopped, _) => (ConsumerState::Stopped, ConsumerAction::Stop),
        (_, ConsumerEvent::Closed) => (ConsumerState::Stopped, ConsumerAction::Stop),
        (ConsumerState::Idle, ConsumerEvent::Reading(t)) => (
            ConsumerState::Sending(t),
            ConsumerAction::Send(t),
        ),
        (ConsumerState::Sending(_), ConsumerEvent::Sent) => (
            ConsumerState::Idle,
            ConsumerAction::Receive,
        ),
        (ConsumerState::Sending(t), ConsumerEvent::SendFailed) => (
            ConsumerState::Reconnecting(t),
            ConsumerAction::Reconnect,
        ),
        (ConsumerState::Reconnecting(t), ConsumerEvent::Reconnected) => (
            ConsumerState::Retrying(t),
            ConsumerAction::Send(t),
        ),
        (ConsumerState::Reconnecting(_), ConsumerEvent::ReconnectFailed) => (
            ConsumerState::Idle,
            ConsumerAction::Backoff(RECONNECT_BACKOFF_SECS),
        ),
        (ConsumerState::Retrying(_), ConsumerEvent::Sent) => (
            ConsumerState::Idle,
            ConsumerAction::Receive,
        ),
        (ConsumerState::Retrying(_), ConsumerEvent::SendFailed) => (
            ConsumerState::Idle,
            ConsumerAction::Receive,
        ),
        _ => (state, ConsumerAction::Wait),
    }
}

/// What the side that writes to the display does, one action for each of
/// the events that reach it in turn.
pub open spec fn consumer_run(state: ConsumerState, events: Seq<ConsumerEvent>) -> Seq<
    ConsumerAction,
>
    decreases events.len(),
{
    if events.len() == 0 {
        Seq::empty()
    } else {
        let (next, action) = consumer_next(state, events[0]);
        seq![action] + consumer_run(next, events.drop_first())
    }
}

/// The events of a run in which every reading is written at the first
/// attempt.
pub open spec fn steady_events(readings: Seq<Temperature>) -> Seq<ConsumerEvent>
    decreases readings.len(),
{
    if readings.len() == 0 {
        Seq::empty()
    } else {
        seq![ConsumerEvent::Reading(readings[0]), ConsumerEvent::Sent] + steady_events(
            readings.drop_first(),
        )
    }
}

/// Each reading sent once, in the order of the readings, and the next one
/// awaited after each.
pub open spec fn steady_actions(readings: Seq<Temperature>) -> Seq<ConsumerAction>
    decreases readings.len(),
{
    if readings.len() == 0 {
        Seq::empty()
    } else {
        seq![ConsumerAction::Send(readings[0]), ConsumerAction::Receive] + steady_actions(
            readings.drop_first(),
        )
    }
}

/// How many of the actions send a reading.
pub open spec fn send_count(actions: Seq<ConsumerAction>) -> nat
    decreases actions.len(),
{
    if actions.len() == 0 {
        0
    } else {
        (if actions[0] is Send {
            1nat
        } else {
            0nat
        }) + send_count(actions.drop_first())
    }
}

/// How many of the events bring a reading.
pub open spec fn reading_count(events: Seq<ConsumerEvent>) -> nat
    decreases events.len(),
{
    if events.len() == 0 {
        0
    } else {
        (if events[0] is Reading {
            1nat
        } else {
            0nat
        }) + reading_count(events.drop_first())
    }
}

/// How often the reading in hand may still be sent beyond what the coming
/// readings allow.
spec fn pending_sends(state: ConsumerState) -> nat {
    match state {
        ConsumerState::Sending(_) => 1,
        ConsumerState::Reconnecting(_) => 1,
        _ => 0,
    }
}

/// While the display takes every report, the readings are sent once each,
/// in the order in which they arrive, and none is left out or sent twice.
pub proof fn lemma_readings_sent_in_order(readings: Seq<Temperature>)
    ensures
        consumer_run(ConsumerState::Idle, steady_events(readings)) == steady_actions(readings),
    decreases readings.len(),
{
    if readings.len() > 0 {
        let events = steady_events(readings);
        let rest = steady_events(readings.drop_first());
        lemma_readings_sent_in_order(readings.drop_first());
        assert(events.drop_first() == seq![ConsumerEvent::Sent] + rest);
        assert(events.drop_first().drop_first() == rest);
        assert(events[0] == ConsumerEvent::Reading(readings[0]));
        assert(events.drop_first()[0] == ConsumerEvent::Sent);
        let after_reading = consumer_run(ConsumerState::Sending(readings[0]), events.drop_first());
        assert(after_reading == seq![ConsumerAction::Receive] + consumer_run(
            ConsumerState::Idle,
            rest,
        ));
        assert(consumer_run(ConsumerState::Idle, events) == seq![
            ConsumerAction::Send(readings[0]),
        ] + after_reading);
        assert(consumer_run(ConsumerState::Idle, events) =~= steady_actions(readings));
    }
}

/// From any state on, no more is sent than two reports for each reading
/// that arrives, and one more for a reading in hand that has been sent only
/// once.
proof fn lemma_send_bound(state: ConsumerState, events: Seq<ConsumerEvent>)
    ensures
        send_count(consumer_run(state, events)) <= 2 * reading_count(events) + pending_sends(
            state,
        ),
    decreases events.len(),
{
    if events.len() > 0 {
        let (next, action) = consumer_next(state, events[0]);
        let rest = consumer_run(next, events.drop_first());
        lemma_send_bound(next, events.drop_first());
        assert((seq![action] + rest).drop_first() == rest);
        assert((seq![action] + rest)[0] == action);
    }
}

/// No reading is sent more than twice: once when it arrives, and once more
/// after a reconnection. Whatever happens, the reports sent are at most two
/// for each reading.
pub proof fn lemma_at_most_two_sends(events: Seq<ConsumerEvent>)
    ensures
        send_count(consumer_run(ConsumerState::Idle, events)) <= 2 * reading_count(events),
{
    lemma_send_bound(ConsumerState::Idle, events);
}

/// With alerts off, no step of the polling raises an alert, whatever the
/// reading.
pub proof fn lemma_no_alert_when_off(config: Config, state: ProducerState, event: ProducerEvent)
    requires
        !config.alerts_enabled,
    ensures
        producer_next(config, state, event).1 matches ProducerAction::Deliver(_, alert)
            ==> alert is None,
{
}

/// A reading is handed over as it was taken, with the alert that the
/// reading alone raises: what came before plays no part.
pub proof fn lemma_delivery(config: Config, reading: Temperature)
    ensures
        producer_next(config, ProducerState::Polling, ProducerEvent::Reading(reading)).1
            == ProducerAction::Deliver(reading, alert_for(reading@, config)),
{
}

/// What is said where a reading is asked for before any tool has been run.
pub open spec fn nothing_run() -> Failure {
    Failure { kind: ErrorKind::Sensor, detail: "No sensor tool has been run"@ }
}

/// The reading of a sensor that the outcomes of its tools give. The CPU has
/// one tool; the GPU has its tools in their order.
pub open spec fn sensor_reading(sensor: SensorType, outcomes: Seq<CommandOutcome>) -> Result<
    int,
    Failure,
> {
    match sensor {
        SensorType::Cpu => if outcomes.len() == 0 {
            Err(nothing_run())
        } else {
            cpu_reading(outcomes[0])
        },
        SensorType::Gpu => gpu_reading(outcomes),
    }
}

/// The tool to run next for a sensor, after the tools before it have given
/// `outcomes`; `None` where the reading, or the failure to get one, is
/// settled.
pub open spec fn next_command_spec(sensor: SensorType, outcomes: Seq<CommandOutcome>) -> Option<
    CommandLine,
> {
    match sensor {
        SensorType::Cpu => if outcomes.len() == 0 {
            Some(CpuSensor::command_line())
        } else {
            None
        },
        SensorType::Gpu => match next_probe_spec(outcomes) {
            Some(probe) => Some(probe.command_line()),
            None => None,
        },
    }
}

/// Whether a sensor can be read: the outcomes of its tools give a reading.
pub open spec fn sensor_available(sensor: SensorType, outcomes: Seq<CommandOutcome>) -> bool {
    sensor_reading(sensor, outcomes).is_ok()
}

/// Reads the sensors by their kind.
#[derive(Debug, Clone, Copy)]
pub struct SensorManager {}

impl SensorManager {
    /// A sensor manager.
    pub fn new() -> (manager: SensorManager) {
        SensorManager {  }
    }

    /// The tool to run next for `sensor_type`, after the tools before it
    /// have given `outcomes`; `None` where nothing is left to run.
    pub fn next_command(&self, sensor_type: &SensorType, outcomes: &Vec<CommandOutcome>) -> (next:
        Option<Command>)
        ensures
            match next {
                Some(c) => next_command_spec(*sensor_type, outcomes@) == Some(c@),
                None => next_command_spec(*sensor_type, outcomes@) is None,
            },
    {
        match sensor_type {
            SensorType::Cpu => {
                if outcomes.len() == 0 {
                    Some(CpuSensor::command())
                } else {
                    None
                }
            },
            SensorType::Gpu => match GpuSensor::next_probe(outcomes) {
                Some(probe) => Some(probe.command()),
                None => None,
            },
        }
    }

    /// The temperature of `sensor_type` that the outcomes of its tools
    /// give.
    pub fn get_temperature(&self, sensor_type: &SensorType, outcomes: &Vec<CommandOutcome>) -> (r:
        Result<Temperature, OcypusError>)
        ensures
            reading_view(r) == sensor_reading(*sensor_type, outcomes@),
    {
        match sensor_type {
            SensorType::Cpu => {
                if outcomes.len() == 0 {
                    Err(OcypusError::Sensor(String::from_str("No sensor tool has been run")))
                } else {
                    CpuSensor::get_temperature(&outcomes[0])
                }
            },
            SensorType::Gpu => GpuSensor::get_temperature(outcomes),
        }
    }

    /// Whether `sensor_type` can be read, going by the outcomes of its
    /// tools.
    pub fn is_sensor_available(
        &self,
        sensor_type: &SensorType,
        outcomes: &Vec<CommandOutcome>,
    ) -> (b: bool)
        ensures
            b == sensor_available(*sensor_type, outcomes@),
    {
        match sensor_type {
            SensorType::Cpu => outcomes.len() > 0 && CpuSensor::is_available(&outcomes[0]),
            SensorType::Gpu => GpuSensor::is_available(outcomes),
        }
    }

    /// The sensors, each with whether it can be read: first the CPU, going
    /// by `cpu_outcomes`, then the GPU, going by `gpu_outcomes`.
    pub fn get_sensor_info(
        &self,
        cpu_outcomes: &Vec<CommandOutcome>,
        gpu_outcomes: &Vec<CommandOutcome>,
    ) -> (info: Vec<(SensorType, bool)>)
        ensures
            info@ == seq![
                (SensorType::Cpu, sensor_available(SensorType::Cpu, cpu_outcomes@)),
                (SensorType::Gpu, sensor_available(SensorType::Gpu, gpu_outcomes@)),
            ],
    {
        let mut info: Vec<(SensorType, bool)> = Vec::new();
        info.push((SensorType::Cpu, self.is_sensor_available(&SensorType::Cpu, cpu_outcomes)));
        info.push((SensorType::Gpu, self.is_sensor_available(&SensorType::Gpu, gpu_outcomes)));
        assert(info@ =~= seq![
            (SensorType::Cpu, sensor_available(SensorType::Cpu, cpu_outcomes@)),
            (SensorType::Gpu, sensor_available(SensorType::Gpu, gpu_outcomes@)),
        ]);
        info
    }
}

/// The monitor: it holds the settings, takes the readings of the chosen
/// sensor and says what to do with each.
#[derive(Debug, Clone, Copy)]
pub struct TemperatureMonitor {
    config: Config,
    sensor_manager: SensorManager,
}

impl TemperatureMonitor {
    /// The settings of the monitor.
    pub closed spec fn settings(&self) -> Config {
        self.config
    }

    /// A monitor with the given settings.
    pub fn new(config: Config) -> (monitor: TemperatureMonitor)
        ensures
            monitor.settings() == config,
    {
        TemperatureMonitor { config, sensor_manager: SensorManager::new() }
    }

    /// The state in which the polling begins, and its first action: a
    /// reading is taken.
    pub fn start_monitoring(&self) -> (r: (ProducerState, ProducerAction))
        ensures
            r == (ProducerState::Polling, ProducerAction::Poll),
    {
        (ProducerState::Polling, ProducerAction::Poll)
    }

    /// The step of the polling: the state that follows `state` on `event`,
    /// and what to do next.
    pub fn producer_step(&self, state: ProducerState, event: ProducerEvent) -> (r: (
        ProducerState,
        ProducerAction,
    ))
        ensures
            r == producer_next(self.settings(), state, event),
    {
        match (state, event) {
            (ProducerState::Polling, ProducerEvent::Reading(t)) => (
                ProducerState::Delivering,
                ProducerAction::Deliver(t, TemperatureMonitor::check_thresholds(t, &self.config)),
            ),
            (ProducerState::Polling, ProducerEvent::ReadFailed) => (
                ProducerState::Sleeping,
                ProducerAction::Sleep(self.config.update_interval),
            ),
            (ProducerState::Delivering, ProducerEvent::Delivered) => (
                ProducerState::Sleeping,
                ProducerAction::Sleep(self.config.update_interval),
            ),
            (ProducerState::Delivering, ProducerEvent::Undelivered) => (
                ProducerState::Stopped,
                ProducerAction::Stop,
            ),
            (ProducerState::Sleeping, ProducerEvent::Woke) => (
                ProducerState::Polling,
                ProducerAction::Poll,
            ),
            (ProducerState::Stopped, _) => (ProducerState::Stopped, ProducerAction::Stop),
            _ => (state, ProducerAction::Wait),
        }
    }

    /// The alert that the reading `temp`, in Celsius, raises under the
    /// settings `config`. With alerts off there is none, whatever the
    /// reading.
    pub fn check_thresholds(temp: Temperature, config: &Config) -> (alert: Option<Alert>)
        ensures
            alert == alert_for(temp@, *config),
            !config.alerts_enabled ==> alert is None,
    {
        if !config.alerts_enabled {
            return None;
        }
        if temp.millis() > config.high_threshold.millis() {
            Some(Alert::High)
        } else if temp.millis() < config.low_threshold.millis() {
            Some(Alert::Low)
        } else {
            None
        }
    }

    /// The temperature of the chosen sensor that the outcomes of its tools
    /// give.
    pub fn get_current_temperature(&self, outcomes: &Vec<CommandOutcome>) -> (r: Result<
        Temperature,
        OcypusError,
    >)
        ensures
            reading_view(r) == sensor_reading(self.settings().sensor_type, outcomes@),
    {
        self.sensor_manager.get_temperature(&self.config.sensor_type, outcomes)
    }

    /// The reading `temp_celsius` in the unit of the display.
    pub fn convert_temperature(&self, temp_celsius: Temperature) -> (shown: Temperature)
        ensures
            shown@ == match self.settings().temperature_unit {
                TemperatureUnit::Celsius => temp_celsius@,
                TemperatureUnit::Fahrenheit => saturate(fahrenheit_millis(temp_celsius@)),
            },
    {
        match self.config.temperature_unit {
            TemperatureUnit::Celsius => temp_celsius,
            TemperatureUnit::Fahrenheit => temp_celsius.to_fahrenheit(),
        }
    }

    /// The settings of the monitor.
    pub fn config(&self) -> (c: &Config)
        ensures
            *c == self.settings(),
    {
        &self.config
    }
}

} // verus!
