use serde_json::Value;
use zksync_telemetry::analytics::property_outcome;
use zksync_telemetry::{
    Collector, EventMessage, Message, Telemetry, TelemetryConfig, TelemetryError, TelemetryProps,
};

fn parse(text: &str) -> Value {
    serde_json::from_str(text).unwrap()
}

fn as_json(event: &posthog_rs::Event) -> Value {
    serde_json::to_value(event).unwrap()
}

#[test]
fn analytics_event_carries_name_identifier_and_properties() {
    let payload = match parse("{\"b\": [1, {\"c\": null}], \"a\": \"text\", \"n\": -2.5}") {
        Value::Object(object) => object,
        _ => unreachable!(),
    };
    let message = EventMessage {
        name: "ran".to_string(),
        distinct_id: "instance-1".to_string(),
        payload,
    };
    let event = message.into_analytics_event().unwrap();
    let json = as_json(&event);
    assert_eq!(json.get("event"), Some(&Value::String("ran".to_string())));
    assert_eq!(json.get("distinct_id"), Some(&Value::String("instance-1".to_string())));
    assert_eq!(
        json.get("properties"),
        Some(&parse("{\"a\": \"text\", \"b\": [1, {\"c\": null}], \"n\": -2.5}"))
    );
}

#[test]
fn analytics_event_without_properties_is_built() {
    let message = EventMessage {
        name: "empty".to_string(),
        distinct_id: "id".to_string(),
        payload: serde_json::Map::new(),
    };
    let event = message.into_analytics_event().unwrap();
    let json = as_json(&event);
    assert_eq!(json.get("event"), Some(&Value::String("empty".to_string())));
    assert_eq!(json.get("properties"), Some(&parse("{}")));
}

#[test]
fn tracked_event_becomes_an_analytics_event() {
    let config = TelemetryConfig {
        enabled: true,
        instance_id: "instance-1".to_string(),
        app_name: "test-app".to_string(),
        app_version: "1.0.0".to_string(),
    };
    let telemetry = Telemetry::new(config, "linux", Some("fake-key".to_string()), None);
    let mut properties = TelemetryProps::new();
    properties.insert("command", Some("build"));
    let dispatch = telemetry.track_event("ran", properties).unwrap();
    assert_eq!(dispatch.collectors, vec![Collector::Analytics]);
    let event = match dispatch.message {
        Message::Event(message) => message.into_analytics_event().unwrap(),
        Message::Error(_) => panic!("an event was expected"),
    };
    let json = as_json(&event);
    assert_eq!(json.get("event"), Some(&Value::String("ran".to_string())));
    assert_eq!(json.get("distinct_id"), Some(&Value::String("instance-1".to_string())));
    assert_eq!(
        json.get("properties"),
        Some(&parse(
            "{\"command\": \"build\", \"app\": \"test-app\", \"app_version\": \"1.0.0\", \
             \"platform\": \"linux\", \"zksync_telemetry_version\": \"0.1.0\"}"
        ))
    );
}

#[test]
fn refused_property_is_a_send_failure_of_the_analytics_collector() {
    assert_eq!(property_outcome(Ok(())), Ok(()));
    let refused = property_outcome(Err(posthog_rs::Error::Serialization("bad key".to_string())));
    assert_eq!(
        refused,
        Err(TelemetryError::SendError(
            Collector::Analytics,
            "Serialization Error: bad key".to_string()
        ))
    );
}

#[test]
fn refused_property_carries_what_the_collector_said() {
    let refused = property_outcome(Err(posthog_rs::Error::Connection("no route".to_string())));
    assert_eq!(
        refused,
        Err(TelemetryError::SendError(
            Collector::Analytics,
            "Connection Error: no route".to_string()
        ))
    );
    let limited = property_outcome(Err(posthog_rs::Error::RateLimit));
    assert_eq!(
        limited,
        Err(TelemetryError::SendError(Collector::Analytics, "Rate limited".to_string()))
    );
}

#[test]
fn analytics_event_is_built_for_every_kind_of_property() {
    let payload = match parse(
        "{\"null\": null, \"flag\": false, \"int\": 18446744073709551615, \"neg\": -9, \
         \"real\": 1.5e300, \"text\": \"\", \"list\": [[], {}], \"deep\": {\"a\": {\"b\": [1]}}}",
    ) {
        Value::Object(object) => object,
        _ => unreachable!(),
    };
    let expected = Value::Object(payload.clone());
    let message =
        EventMessage { name: "n".to_string(), distinct_id: "d".to_string(), payload };
    let event = message.into_analytics_event();
    assert!(event.is_ok());
    assert_eq!(as_json(&event.unwrap()).get("properties"), Some(&expected));
}
