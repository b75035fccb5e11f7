//! Sensor readings that the Arduino stations publish over MQTT, and which of
//! them are logged.
use vstd::prelude::*;

verus! {

/// The MQTT topic the stations publish their readings to.
pub const DATA_TOPIC: &'static str = "arduino/data";

/// How many requests the MQTT client queues before callers wait.
pub const MQTT_REQUEST_CAPACITY: usize = 10;

/// One reading as a station publishes it.
#[derive(Debug, Clone, PartialEq, Eq)]
pub struct ArduinoData {
    pub client_name: String,
    pub temperature: i32,
    pub humidity: i32,
}

/// A logged reading. `id` is the document id (12 bytes) the database assigns,
/// `None` before insertion; `time` is when it was received, in milliseconds
/// since the Unix epoch.
#[derive(Debug, Clone, PartialEq, Eq)]
pub struct TemperatureLog {
    pub id: Option<[u8; 12]>,
    pub client_name: String,
    pub temperature: i32,
    pub humidity: i32,
    pub time: i64,
}

/// What the MQTT event loop delivered.
#[derive(Debug, Clone, PartialEq, Eq)]
pub enum MqttEvent {
    /// A published reading, decoded, and when it was received.
    Reading { data: ArduinoData, received_at: i64 },
    /// Any other event (acknowledgements, pings, outgoing packets).
    Other,
}

/// What to do with an event.
#[derive(Debug, Clone, PartialEq, Eq)]
pub enum MqttAction {
    /// Insert this log entry.
    Store { log: TemperatureLog },
    /// Nothing.
    Ignore,
}

/// A relative humidity in percent that a sensor can report.
pub open spec fn plausible_humidity(humidity: i32) -> bool {
    0 <= humidity <= 100
}

/// `action` stores exactly `data`, received at `received_at`, as a new log entry.
pub open spec fn stores_reading(action: MqttAction, data: ArduinoData, received_at: i64) -> bool {
    match action {
        MqttAction::Store { log } => {
            &&& log.id is None
            &&& log.client_name@ == data.client_name@
            &&& log.temperature == data.temperature
            &&& log.humidity == data.humidity
            &&& log.time == received_at
        },
        MqttAction::Ignore => false,
    }
}

/// Whether a humidity reading is within 0 to 100 percent.
pub fn is_plausible_humidity(humidity: i32) -> (ok: bool)
    ensures
        ok == plausible_humidity(humidity),
        ok == (0 <= humidity && humidity <= 100),
{
    humidity >= 0 && humidity <= 100
}

/// Decides what to do with an MQTT event: a reading whose humidity lies
/// within 0 to 100 percent is logged as it came, with the time it was
/// received; every other reading and every other event is ignored.
pub fn on_mqtt_event(event: MqttEvent) -> (action: MqttAction)
    ensures
        match event {
            MqttEvent::Reading { data, received_at } => if plausible_humidity(data.humidity) {
                stores_reading(action, data, received_at)
            } else {
                action is Ignore
            },
            MqttEvent::Other => action is Ignore,
        },
        event matches MqttEvent::Reading { data, received_at }
            ==> ((0 <= data.humidity <= 100) ==> stores_reading(action, data, received_at)),
        event matches MqttEvent::Reading { data, received_at }
            ==> (!(0 <= data.humidity <= 100) ==> action is Ignore),
{
    match event {
        MqttEvent::Reading { data, received_at } => {
            if is_plausible_humidity(data.humidity) {
                let log = TemperatureLog {
                    id: None,
                    client_name: data.client_name,
                    temperature: data.temperature,
                    humidity: data.humidity,
                    time: received_at,
                };
                MqttAction::Store { log }
            } else {
                MqttAction::Ignore
            }
        },
        MqttEvent::Other => MqttAction::Ignore,
    }
}

/// A humidity reading is plausible exactly when it lies between 0 and 100
/// percent, both included.
pub proof fn lemma_plausible_humidity_bounds(humidity: i32)
    ensures
        plausible_humidity(humidity) <==> (0 <= humidity && humidity <= 100),
{
}

/// A logged reading is a new entry (no document id yet) that carries the
/// station, temperature and humidity it came with and the time it was received.
pub proof fn lemma_stored_reading_fields(action: MqttAction, data: ArduinoData, received_at: i64)
    ensures
        stores_reading(action, data, received_at) <==> (match action {
            MqttAction::Store { log } => log.id is None && log.client_name@ == data.client_name@
                && log.temperature == data.temperature && log.humidity == data.humidity
                && log.time == received_at,
            MqttAction::Ignore => false,
        }),
{
}

/// A device, by the UUID it is registered under (`None` before registration).
#[derive(Debug, Default, Clone, PartialEq, Eq)]
pub struct Device {
    pub id: Option<u128>,
}

} // verus!
