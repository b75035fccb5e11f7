use m321::telemetry::{
    is_plausible_humidity, on_mqtt_event, ArduinoData, Device, MqttAction, MqttEvent, TemperatureLog,
    DATA_TOPIC, MQTT_REQUEST_CAPACITY,
};

fn reading(humidity: i32) -> MqttEvent {
    MqttEvent::Reading {
        data: ArduinoData { client_name: "station-1".to_string(), temperature: -4, humidity },
        received_at: 1_700_000_000_000,
    }
}

#[test]
fn plausible_readings_are_stored_unchanged() {
    for humidity in [0, 1, 55, 100] {
        assert_eq!(
            on_mqtt_event(reading(humidity)),
            MqttAction::Store {
                log: TemperatureLog {
                    id: None,
                    client_name: "station-1".to_string(),
                    temperature: -4,
                    humidity,
                    time: 1_700_000_000_000,
                }
            }
        );
    }
}

#[test]
fn implausible_readings_are_ignored() {
    for humidity in [-1, 101, i32::MIN, i32::MAX] {
        assert_eq!(on_mqtt_event(reading(humidity)), MqttAction::Ignore);
    }
}

#[test]
fn other_events_are_ignored() {
    assert_eq!(on_mqtt_event(MqttEvent::Other), MqttAction::Ignore);
}

#[test]
fn humidity_bounds() {
    assert!(is_plausible_humidity(0));
    assert!(is_plausible_humidity(100));
    assert!(!is_plausible_humidity(-1));
    assert!(!is_plausible_humidity(101));
}

#[test]
fn subscription_settings() {
    assert_eq!(DATA_TOPIC, "arduino/data");
    assert_eq!(MQTT_REQUEST_CAPACITY, 10);
}

#[test]
fn device_default_has_no_id() {
    assert_eq!(Device::default(), Device { id: None });
}

#[test]
fn stored_device_default_has_no_id() {
    assert_eq!(m321::models::Device::default(), m321::models::Device { id: None });
}
