use loadgen::errors::{ClientError, ConfigError};
use loadgen::scenario::{Credentials, Protocol, RawScenario, RawStep, Scenario};
use loadgen::step::StepSpec;

fn config_error(r: Result<Scenario, ConfigError>) -> ConfigError {
    match r {
        Err(e) => e,
        Ok(_) => panic!("expected a configuration error"),
    }
}

fn http_raw() -> RawScenario {
    RawScenario {
        protocol: String::from("http"),
        host: String::from("localhost"),
        port: 9090,
        clients: 4,
        duration: String::from("2s"),
        ramp_up: String::from("1s"),
        interval: Some(String::from("0ms")),
        steps: vec![
            RawStep { endpoint: Some(String::from("/hello")), publish: false },
            RawStep { endpoint: Some(String::from("/world")), publish: false },
        ],
        credentials: None,
        pretest_subscribe: None,
    }
}

fn mqtt_raw() -> RawScenario {
    RawScenario {
        protocol: String::from("mqtt"),
        host: String::from("broker.local"),
        port: 1883,
        clients: 2,
        duration: String::from("3s"),
        ramp_up: String::from("500ms"),
        interval: None,
        steps: vec![
            RawStep { endpoint: None, publish: true },
            RawStep { endpoint: None, publish: false },
        ],
        credentials: Some(Credentials {
            username: String::from("user"),
            password: String::from("SECRET-REDACTED"),
        }),
        pretest_subscribe: Some(vec![String::from("some/topic"), String::from("stop")]),
    }
}

#[test]
fn builds_http_scenario() {
    let s = Scenario::new(http_raw()).unwrap();
    assert_eq!(s.protocol, Protocol::Http);
    assert_eq!(s.host.as_str(), "localhost");
    assert_eq!(s.port, 9090);
    assert_eq!(s.clients, 4);
    assert_eq!(s.duration_millis, 2000);
    assert_eq!(s.ramp_up_millis, 1000);
    assert_eq!(s.interval_millis, 0);
    assert_eq!(s.steps.len(), 2);
    match &s.steps[0] {
        StepSpec::Endpoint(e) => assert_eq!(e.as_str(), "/hello"),
        _ => panic!("expected an endpoint step"),
    }
    match &s.steps[1] {
        StepSpec::Endpoint(e) => assert_eq!(e.as_str(), "/world"),
        _ => panic!("expected an endpoint step"),
    }
    assert!(s.pretest_subscribe.is_empty());
}

#[test]
fn builds_mqtt_scenario() {
    let s = Scenario::new(mqtt_raw()).unwrap();
    assert_eq!(s.protocol, Protocol::Mqtt);
    assert_eq!(s.port, 1883);
    assert_eq!(s.duration_millis, 3000);
    assert_eq!(s.ramp_up_millis, 500);
    assert_eq!(s.interval_millis, 0);
    assert!(matches!(s.steps[0], StepSpec::Publish));
    assert!(matches!(s.steps[1], StepSpec::Idle));
    assert_eq!(s.pretest_subscribe.len(), 2);
    assert_eq!(s.pretest_subscribe[0].as_str(), "some/topic");
}

#[test]
fn rejects_unknown_protocol() {
    let mut raw = http_raw();
    raw.protocol = String::from("gopher");
    assert_eq!(config_error(Scenario::new(raw)), ConfigError::UnknownProtocol);
}

#[test]
fn rejects_zero_clients() {
    let mut raw = http_raw();
    raw.clients = 0;
    assert_eq!(config_error(Scenario::new(raw)), ConfigError::NoClients);
}

#[test]
fn rejects_port_out_of_range() {
    let mut raw = http_raw();
    raw.port = 70000;
    assert_eq!(config_error(Scenario::new(raw)), ConfigError::BadPort);
}

#[test]
fn rejects_bad_duration() {
    let mut raw = http_raw();
    raw.duration = String::from("soon");
    assert_eq!(config_error(Scenario::new(raw)), ConfigError::BadDuration);
}

#[test]
fn rejects_bad_ramp_up() {
    let mut raw = http_raw();
    raw.ramp_up = String::from("");
    assert_eq!(config_error(Scenario::new(raw)), ConfigError::BadRampUp);
}

#[test]
fn rejects_bad_interval() {
    let mut raw = http_raw();
    raw.interval = Some(String::from("often"));
    assert_eq!(config_error(Scenario::new(raw)), ConfigError::BadInterval);
}

#[test]
fn missing_interval_means_no_wait() {
    let mut raw = http_raw();
    raw.interval = None;
    let s = Scenario::new(raw).unwrap();
    assert_eq!(s.interval_millis, 0);
}

#[test]
fn rejects_step_without_endpoint() {
    let mut raw = http_raw();
    raw.steps.push(RawStep { endpoint: None, publish: false });
    assert_eq!(config_error(Scenario::new(raw)), ConfigError::MissingEndpoint);
}

#[test]
fn rejects_mqtt_without_credentials() {
    let mut raw = mqtt_raw();
    raw.credentials = None;
    assert_eq!(config_error(Scenario::new(raw)), ConfigError::MissingCredentials);
}

#[test]
fn first_failing_check_wins() {
    let mut raw = http_raw();
    raw.protocol = String::from("gopher");
    raw.clients = 0;
    assert_eq!(config_error(Scenario::new(raw)), ConfigError::UnknownProtocol);
}

#[test]
fn config_error_messages_are_distinct() {
    let errors = [
        ConfigError::UnknownProtocol,
        ConfigError::NoClients,
        ConfigError::TooManyClients,
        ConfigError::BadPort,
        ConfigError::BadDuration,
        ConfigError::BadRampUp,
        ConfigError::BadInterval,
        ConfigError::MissingEndpoint,
        ConfigError::MissingCredentials,
    ];
    for (i, a) in errors.iter().enumerate() {
        for (j, b) in errors.iter().enumerate() {
            assert_eq!(i == j, a.message() == b.message());
        }
    }
}

#[test]
fn fresh_steps_start_empty() {
    let s = Scenario::new(http_raw()).unwrap();
    let steps = s.fresh_steps();
    assert_eq!(steps.len(), 2);
    for step in &steps {
        assert_eq!(step.time(), 0);
        assert_eq!(step.count(), 0);
        assert_eq!(step.errors(), 0);
    }
}

#[test]
fn client_error_messages_are_distinct() {
    let connect = ClientError::Connection.message();
    let protocol = ClientError::Protocol.message();
    assert!(!connect.is_empty());
    assert!(!protocol.is_empty());
    assert_ne!(connect, protocol);
}
