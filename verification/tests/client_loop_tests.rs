use loadgen::scenario::{Credentials, RawScenario, RawStep, Scenario};
use loadgen::stop::{DeadlineTimer, StopSignal};
use loadgen::test_client::Command;
use loadgen::test_http_client::TestHttpClient;
use loadgen::test_mqtt_client::{EventPoller, TestMqttClient};

fn one_step_http(duration: &str, interval: &str) -> Scenario {
    Scenario::new(RawScenario {
        protocol: String::from("http"),
        host: String::from("localhost"),
        port: 9090,
        clients: 1,
        duration: String::from(duration),
        ramp_up: String::from("0ms"),
        interval: Some(String::from(interval)),
        steps: vec![RawStep { endpoint: Some(String::from("/hello")), publish: false }],
        credentials: None,
        pretest_subscribe: None,
    })
    .unwrap()
}

fn mqtt_scenario() -> Scenario {
    Scenario::new(RawScenario {
        protocol: String::from("mqtt"),
        host: String::from("broker.local"),
        port: 1883,
        clients: 1,
        duration: String::from("1s"),
        ramp_up: String::from("0ms"),
        interval: None,
        steps: vec![
            RawStep { endpoint: None, publish: true },
            RawStep { endpoint: None, publish: false },
        ],
        credentials: Some(Credentials {
            username: String::from("user"),
            password: String::from("SECRET-REDACTED"),
        }),
        pretest_subscribe: Some(vec![String::from("some/topic")]),
    })
    .unwrap()
}

#[test]
fn http_loop_runs_to_the_deadline() {
    // One client, duration 2s, no interval, one step, every request taking
    // ten simulated milliseconds: the loop must stop within one iteration
    // of the deadline, having completed work the whole time.
    let scenario = one_step_http("2s", "0ms");
    let mut client = TestHttpClient::new(0, &scenario);
    let mut timer = DeadlineTimer::new(scenario.duration_millis);
    let mut stop = StopSignal::new();
    let request_latency: u128 = 10;
    let mut now: u128 = 0;
    let mut finish: Option<u128> = None;
    for _turn in 0..100000 {
        if timer.tick(now) {
            stop.fire();
        }
        match client.advance(stop.is_stopped()) {
            Command::Request(endpoint) => {
                assert_eq!(endpoint.as_str(), "/hello");
                now += request_latency;
                client.record(request_latency, true);
            }
            Command::Finish => {
                finish = Some(now);
                break;
            }
            Command::Wait(_) | Command::Pass => unreachable!("no wait without an interval"),
            _ => unreachable!("no publishes over the request protocol"),
        }
    }
    let finish = finish.expect("the loop must finish");
    assert!(finish >= 2000, "stopped before the deadline: {finish}");
    assert!(finish <= 2000 + request_latency, "overshot the deadline: {finish}");
    let step = &client.client_data().steps()[0];
    assert_eq!(step.count(), 200);
    assert!(step.count() > 0);
    assert!(step.time() <= step.count() as u128 * request_latency);
}

#[test]
fn http_loop_waits_each_iteration() {
    let scenario = one_step_http("1s", "100ms");
    let mut client = TestHttpClient::new(0, &scenario);
    match client.advance(false) {
        Command::Wait(w) => assert_eq!(w, 100),
        _ => panic!("the first turn of an iteration must wait"),
    }
    match client.advance(false) {
        Command::Request(e) => assert_eq!(e.as_str(), "/hello"),
        _ => panic!("after the wait comes the step"),
    }
    client.record(5, true);
    match client.advance(false) {
        Command::Wait(w) => assert_eq!(w, 100),
        _ => panic!("each iteration starts with its wait"),
    }
}

#[test]
fn http_loop_finishes_only_at_a_boundary() {
    let scenario = one_step_http("1s", "0ms");
    let mut client = TestHttpClient::new(0, &scenario);
    match client.advance(false) {
        Command::Request(_) => {}
        _ => panic!("expected a request"),
    }
    client.record(3, true);
    // The signal fired mid-run; the loop sees it at the next boundary.
    match client.advance(true) {
        Command::Finish => {}
        _ => panic!("the stop signal is honored at the boundary"),
    }
}

#[test]
fn http_loop_counts_failures_and_goes_on() {
    let scenario = one_step_http("1s", "0ms");
    let mut client = TestHttpClient::new(0, &scenario);
    match client.advance(false) {
        Command::Request(_) => {}
        _ => panic!("expected a request"),
    }
    client.record(7, false);
    let step = &client.client_data().steps()[0];
    assert_eq!(step.count(), 0);
    assert_eq!(step.errors(), 1);
    assert_eq!(step.time(), 0);
    // The failure did not end the loop.
    match client.advance(false) {
        Command::Request(_) => {}
        _ => panic!("the loop goes on after a failed call"),
    }
}

#[test]
fn mqtt_loop_publishes_then_stops_with_a_marker() {
    let scenario = mqtt_scenario();
    let mut client = TestMqttClient::new(0, &scenario);
    assert_eq!(client.params.client_id.as_str(), "mqtt_client_0");
    assert_eq!(client.pretest()[0].as_str(), "some/topic");

    match client.advance(false) {
        Command::Publish { topic, payload } => {
            assert_eq!(topic.as_str(), "some/topic");
            assert_eq!(payload.as_str(), "hej");
        }
        _ => panic!("the publish step publishes"),
    }
    client.record(2, true);
    match client.advance(false) {
        Command::Pass => {}
        _ => panic!("the idle step does nothing"),
    }
    // Stop observed at the boundary: first the terminal marker, then done.
    match client.advance(true) {
        Command::PublishStop { topic, payload } => {
            assert_eq!(topic.as_str(), "stop");
            assert_eq!(payload.as_str(), "stop");
        }
        _ => panic!("the stop marker goes out first"),
    }
    match client.advance(true) {
        Command::Finish => {}
        _ => panic!("the loop ends after the marker"),
    }
    let step = &client.client_data().steps()[0];
    assert_eq!(step.count(), 1);
    assert_eq!(step.time(), 2);
}

#[test]
fn mqtt_client_ids_follow_the_numbering() {
    let scenario = mqtt_scenario();
    let c3 = TestMqttClient::new(3, &scenario);
    assert_eq!(c3.params.client_id.as_str(), "mqtt_client_3");
    assert_eq!(c3.params.host.as_str(), "broker.local");
    assert_eq!(c3.params.port, 1883);
    assert_eq!(c3.params.username.as_str(), "user");
}

#[test]
fn poller_counts_events_and_retries_failures() {
    let mut p = EventPoller::new();
    assert!(p.on_poll(true, false));
    assert!(p.on_poll(false, false));
    assert!(p.on_poll(true, false));
    assert_eq!(p.response_count, 2);
    assert!(!p.on_poll(true, true));
    assert_eq!(p.response_count, 3);
}
