use serde_json::Value;
use zksync_telemetry::telemetry::version;
use zksync_telemetry::{
    Collector, Dispatch, ErrorDescription, Message, Outcome, Signals, Telemetry, TelemetryConfig,
    TelemetryError, TelemetryProps,
};

fn config(enabled: bool) -> TelemetryConfig {
    TelemetryConfig {
        enabled,
        instance_id: "instance-1".to_string(),
        app_name: "test-app".to_string(),
        app_version: "1.0.0".to_string(),
    }
}

fn facade(enabled: bool, posthog: bool, sentry: bool) -> Telemetry {
    Telemetry::new(
        config(enabled),
        "linux",
        if posthog { Some("fake-key".to_string()) } else { None },
        if sentry { Some("https://public@example.com/1".to_string()) } else { None },
    )
}

fn parse(text: &str) -> Value {
    serde_json::from_str(text).unwrap()
}

fn event_parts(dispatch: &Dispatch) -> (String, String, Value) {
    match &dispatch.message {
        Message::Event(event) => (
            event.name.clone(),
            event.distinct_id.clone(),
            Value::Object(event.payload.clone()),
        ),
        Message::Error(_) => panic!("an event was expected"),
    }
}

fn failed(collector: Collector, reason: &str) -> Outcome {
    Outcome { collector, failure: Some(reason.to_string()) }
}

fn delivered(collector: Collector) -> Outcome {
    Outcome { collector, failure: None }
}

#[test]
fn test_telemetry_disabled_by_default_in_tests() {
    let under_test = Signals { test_or_ci: true, opt_out: false };
    let stored = "{\"enabled\": true, \"instance_id\": \"kept-id\"}";
    let resolution = TelemetryConfig::resolve("test-app", "1.0.0", under_test, Some(stored));
    let telemetry = Telemetry::new(
        resolution.config,
        "linux",
        Some("fake-key".to_string()),
        Some("fake-dsn".to_string()),
    );
    assert!(!telemetry.config().enabled);
    assert!(!telemetry.is_enabled());
    assert!(telemetry.analytics().is_none());
    assert!(telemetry.crash_reporting().is_none());
}

#[test]
fn test_track_event_when_disabled() {
    let under_test = Signals { test_or_ci: true, opt_out: false };
    let resolution = TelemetryConfig::resolve("test-app", "1.0.0", under_test, None);
    let telemetry = Telemetry::new(resolution.config, "linux", None, None);
    let properties = TelemetryProps::new().insert("test", Some("value")).take();
    let dispatch = telemetry.track_event("test_event", properties);
    assert!(dispatch.is_none());
    assert!(Telemetry::conclude(Vec::new()).is_ok());
}

#[test]
fn test_sentry_error_capture() {
    let under_test = Signals { test_or_ci: true, opt_out: false };
    let resolution = TelemetryConfig::resolve("test-app", "1.0.0", under_test, None);
    let telemetry = Telemetry::new(
        resolution.config,
        "linux",
        None,
        Some("https://public@example.com/1".to_string()),
    );
    let error = ErrorDescription { message: "test error".to_string(), source_chain: Vec::new() };
    let dispatch = telemetry.track_error(error);
    assert!(dispatch.is_none());
    assert!(Telemetry::conclude(Vec::new()).is_ok());
}

#[test]
fn test_posthog_error_capture() {
    let under_test = Signals { test_or_ci: true, opt_out: false };
    let resolution = TelemetryConfig::resolve("test-app", "1.0.0", under_test, None);
    let telemetry =
        Telemetry::new(resolution.config, "linux", Some("fake-key".to_string()), None);
    let error = ErrorDescription { message: "test error".to_string(), source_chain: Vec::new() };
    let dispatch = telemetry.track_error(error);
    assert!(dispatch.is_none());
    assert!(Telemetry::conclude(Vec::new()).is_ok());
}

#[test]
fn disabled_facade_sets_up_no_collector() {
    let telemetry = facade(false, true, true);
    assert!(!telemetry.is_enabled());
    assert!(telemetry.analytics().is_none());
    assert!(telemetry.crash_reporting().is_none());
    assert_eq!(telemetry.platform(), "linux");
    assert_eq!(telemetry.config(), &config(false));
}

#[test]
fn enabled_facade_sets_up_a_collector_for_each_credential() {
    let telemetry = facade(true, true, true);
    assert!(telemetry.is_enabled());
    let analytics = telemetry.analytics().unwrap();
    assert_eq!(analytics.api_key, "fake-key");
    assert_eq!(analytics.distinct_id, "instance-1");
    assert!(!analytics.panic_capture_enabled);
    let crash = telemetry.crash_reporting().unwrap();
    assert_eq!(crash.dsn, "https://public@example.com/1");
    assert_eq!(crash.release, "0.1.0");
    assert_eq!(
        crash.tags,
        vec![
            ("app".to_string(), "test-app".to_string()),
            ("app_version".to_string(), "1.0.0".to_string()),
            ("platform".to_string(), "linux".to_string()),
            ("zksync_telemetry_version".to_string(), "0.1.0".to_string()),
        ]
    );

    let analytics_only = facade(true, true, false);
    assert!(analytics_only.analytics().unwrap().panic_capture_enabled);
    assert!(analytics_only.crash_reporting().is_none());

    let crash_only = facade(true, false, true);
    assert!(crash_only.analytics().is_none());
    assert!(crash_only.crash_reporting().is_some());

    let bare = facade(true, false, false);
    assert!(bare.is_enabled());
    assert!(bare.analytics().is_none());
    assert!(bare.crash_reporting().is_none());
}

#[test]
fn default_props_are_the_four_default_fields() {
    assert_eq!(version(), "0.1.0");
    let telemetry = facade(false, false, false);
    assert_eq!(
        telemetry.default_props(),
        vec![
            ("app".to_string(), "test-app".to_string()),
            ("app_version".to_string(), "1.0.0".to_string()),
            ("platform".to_string(), "linux".to_string()),
            ("zksync_telemetry_version".to_string(), "0.1.0".to_string()),
        ]
    );
}

#[test]
fn disabled_facade_tracks_nothing() {
    let telemetry = facade(false, false, false);
    assert!(telemetry.track_event("x", TelemetryProps::new()).is_none());
    assert!(Telemetry::conclude(Vec::new()).is_ok());

    let with_credentials = facade(false, true, true);
    let mut properties = TelemetryProps::new();
    properties.insert("k", Some("v"));
    assert!(with_credentials.track_event("x", properties).is_none());
    let error = ErrorDescription { message: "m".to_string(), source_chain: Vec::new() };
    assert!(with_credentials.track_error(error).is_none());
}

#[test]
fn enabled_facade_without_collectors_tracks_nothing() {
    let telemetry = facade(true, false, false);
    assert!(telemetry.track_event("x", TelemetryProps::new()).is_none());
    let error = ErrorDescription { message: "m".to_string(), source_chain: Vec::new() };
    assert!(telemetry.track_error(error).is_none());
}

#[test]
fn event_goes_to_every_collector_with_the_default_fields() {
    let telemetry = facade(true, true, true);
    let mut properties = TelemetryProps::new();
    properties.insert("command", Some("build")).insert("fast", Some(true));
    let dispatch = telemetry.track_event("ran", properties).unwrap();
    assert_eq!(dispatch.collectors, vec![Collector::Analytics, Collector::CrashReporting]);
    let (name, distinct_id, payload) = event_parts(&dispatch);
    assert_eq!(name, "ran");
    assert_eq!(distinct_id, "instance-1");
    assert_eq!(
        payload,
        parse(
            "{\"command\": \"build\", \"fast\": true, \"app\": \"test-app\", \
             \"app_version\": \"1.0.0\", \"platform\": \"linux\", \
             \"zksync_telemetry_version\": \"0.1.0\"}"
        )
    );
}

#[test]
fn event_goes_to_the_one_collector_that_is_set_up() {
    let analytics_only = facade(true, true, false);
    let dispatch = analytics_only.track_event("ran", TelemetryProps::new()).unwrap();
    assert_eq!(dispatch.collectors, vec![Collector::Analytics]);

    let crash_only = facade(true, false, true);
    let dispatch = crash_only.track_event("ran", TelemetryProps::new()).unwrap();
    assert_eq!(dispatch.collectors, vec![Collector::CrashReporting]);
    let (_, _, payload) = event_parts(&dispatch);
    assert_eq!(payload.as_object().unwrap().len(), 4);
}

#[test]
fn default_fields_win_over_the_properties_of_the_caller() {
    let telemetry = facade(true, true, false);
    let mut properties = TelemetryProps::new();
    properties
        .insert("app", Some("spoofed"))
        .insert("app_version", Some(false))
        .insert("platform", Some("plan9"))
        .insert("zksync_telemetry_version", Some("9.9.9"))
        .insert("mine", Some("kept"));
    let dispatch = telemetry.track_event("ran", properties).unwrap();
    let (_, _, payload) = event_parts(&dispatch);
    assert_eq!(
        payload,
        parse(
            "{\"mine\": \"kept\", \"app\": \"test-app\", \"app_version\": \"1.0.0\", \
             \"platform\": \"linux\", \"zksync_telemetry_version\": \"0.1.0\"}"
        )
    );
}

#[test]
fn properties_that_are_no_object_count_as_none() {
    let telemetry = facade(true, true, false);
    for properties in [
        TelemetryProps::from_str("scalar"),
        TelemetryProps::from_bool(true),
        TelemetryProps::from_array(vec!["a", "b"]),
    ] {
        let dispatch = telemetry.track_event("ran", properties).unwrap();
        let (name, _, payload) = event_parts(&dispatch);
        assert_eq!(name, "ran");
        assert_eq!(
            payload,
            parse(
                "{\"app\": \"test-app\", \"app_version\": \"1.0.0\", \"platform\": \"linux\", \
                 \"zksync_telemetry_version\": \"0.1.0\"}"
            )
        );
    }
}

#[test]
fn one_failing_collector_does_not_hide_the_other() {
    let telemetry = facade(true, true, true);
    let mut properties = TelemetryProps::new();
    properties.insert("k", Some("v"));
    let dispatch = telemetry.track_event("ran", properties).unwrap();
    assert_eq!(dispatch.collectors.len(), 2);

    let mut received: Vec<(Collector, Value)> = Vec::new();
    let mut outcomes: Vec<Outcome> = Vec::new();
    for collector in dispatch.collectors.iter() {
        let (_, _, payload) = event_parts(&dispatch);
        match collector {
            Collector::Analytics => outcomes.push(failed(*collector, "connection refused")),
            Collector::CrashReporting => {
                received.push((*collector, payload));
                outcomes.push(delivered(*collector));
            }
        }
    }
    assert_eq!(received.len(), 1);
    assert_eq!(received[0].0, Collector::CrashReporting);
    assert_eq!(received[0].1.as_object().unwrap().get("k"), Some(&Value::String("v".to_string())));
    assert_eq!(
        Telemetry::conclude(outcomes),
        Err(TelemetryError::SendError(Collector::Analytics, "connection refused".to_string()))
    );
}

#[test]
fn conclude_reports_the_first_failure() {
    assert_eq!(Telemetry::conclude(Vec::new()), Ok(()));
    assert_eq!(
        Telemetry::conclude(vec![
            delivered(Collector::Analytics),
            delivered(Collector::CrashReporting)
        ]),
        Ok(())
    );
    assert_eq!(
        Telemetry::conclude(vec![
            delivered(Collector::Analytics),
            failed(Collector::CrashReporting, "late")
        ]),
        Err(TelemetryError::SendError(Collector::CrashReporting, "late".to_string()))
    );
    assert_eq!(
        Telemetry::conclude(vec![
            failed(Collector::Analytics, "first"),
            failed(Collector::CrashReporting, "second")
        ]),
        Err(TelemetryError::SendError(Collector::Analytics, "first".to_string()))
    );
    assert_eq!(
        Telemetry::conclude(vec![failed(Collector::CrashReporting, "")]),
        Err(TelemetryError::SendError(Collector::CrashReporting, String::new()))
    );
}

#[test]
fn error_goes_to_the_crash_reporter_alone() {
    let telemetry = facade(true, true, true);
    let error = ErrorDescription {
        message: "test error".to_string(),
        source_chain: vec!["cause".to_string(), "root cause".to_string()],
    };
    let dispatch = telemetry.track_error(error).unwrap();
    assert_eq!(dispatch.collectors, vec![Collector::CrashReporting]);
    match dispatch.message {
        Message::Error(description) => {
            assert_eq!(description.message, "test error");
            assert_eq!(
                description.source_chain,
                vec!["cause".to_string(), "root cause".to_string()]
            );
        }
        Message::Event(_) => panic!("an error report was expected"),
    }

    let crash_only = facade(true, false, true);
    let error = ErrorDescription { message: "m".to_string(), source_chain: Vec::new() };
    let dispatch = crash_only.track_error(error).unwrap();
    assert_eq!(dispatch.collectors, vec![Collector::CrashReporting]);
    assert!(matches!(dispatch.message, Message::Error(_)));
}

#[test]
fn error_becomes_an_event_for_the_analytics_collector() {
    let telemetry = facade(true, true, false);
    let error = ErrorDescription {
        message: "test error".to_string(),
        source_chain: vec!["cause".to_string(), "root cause".to_string()],
    };
    let dispatch = telemetry.track_error(error).unwrap();
    assert_eq!(dispatch.collectors, vec![Collector::Analytics]);
    let (name, distinct_id, payload) = event_parts(&dispatch);
    assert_eq!(name, "$exception");
    assert_eq!(distinct_id, "instance-1");
    assert_eq!(
        payload,
        parse(
            "{\"$exception_message\": \"test error\", \
             \"$exception_sources\": [\"cause\", \"root cause\"], \
             \"app\": \"test-app\", \"app_version\": \"1.0.0\", \"platform\": \"linux\", \
             \"zksync_telemetry_version\": \"0.1.0\"}"
        )
    );

    let bare = ErrorDescription { message: String::new(), source_chain: Vec::new() };
    let dispatch = telemetry.track_error(bare).unwrap();
    let (_, _, payload) = event_parts(&dispatch);
    assert_eq!(payload.get("$exception_message"), Some(&Value::String(String::new())));
    assert_eq!(payload.get("$exception_sources"), Some(&Value::Array(Vec::new())));
}

#[test]
fn errors_read_as_written() {
    assert_eq!(
        TelemetryError::ConfigError("no such file".to_string()).message(),
        "Configuration error: no such file"
    );
    assert_eq!(TelemetryError::BuildError.message(), "Telemetry properties are not an object");
    assert_eq!(
        TelemetryError::SendError(Collector::Analytics, "timeout".to_string()).message(),
        "Failed to send telemetry to the analytics collector: timeout"
    );
    assert_eq!(
        TelemetryError::SendError(Collector::CrashReporting, "timeout".to_string()).message(),
        "Failed to send telemetry to the crash reporting collector: timeout"
    );
    assert_eq!(TelemetryError::AlreadyInitialized.message(), "Telemetry is already set");
    assert_eq!(Collector::Analytics.name(), "analytics");
    assert_eq!(Collector::CrashReporting.name(), "crash reporting");
}
