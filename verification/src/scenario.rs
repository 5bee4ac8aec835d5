//! The scenario: the full declarative description of one load-test run.
//!
//! The loader outside the library turns the scenario document into a
//! `RawScenario` of plain values; `Scenario::new` checks it and builds the
//! immutable configuration that every virtual client shares read-only.

use vstd::prelude::*;
use vstd::string::StringExecFns;

use crate::duration::{duration_millis, parse_duration, valid_duration};
use crate::errors::ConfigError;
use crate::step::StepSpec;

verus! {

/// The wire protocols the engine drives.
#[derive(Clone, Copy, Debug, PartialEq, Eq, Structural)]
pub enum Protocol {
    Http,
    Mqtt,
}

/// Login data for protocols that need it.
pub struct Credentials {
    pub username: String,
    pub password: String,
}

impl Credentials {
    /// A fresh copy of the credentials.
    pub fn duplicate(&self) -> (r: Self)
        ensures
            r.username@ == self.username@,
            r.password@ == self.password@,
    {
        Credentials { username: self.username.clone(), password: self.password.clone() }
    }
}

/// One step as the scenario document spells it.
pub struct RawStep {
    /// The endpoint the step requests, for the request/response protocol.
    pub endpoint: Option<String>,
    /// Whether the step is marked as a publish action, for the
    /// publish/subscribe protocol.
    pub publish: bool,
}

/// The scenario document's fields, handed over as plain values by the
/// loader.
pub struct RawScenario {
    pub protocol: String,
    pub host: String,
    pub port: u64,
    pub clients: u64,
    pub duration: String,
    pub ramp_up: String,
    /// The test loop's inter-iteration interval; a missing field means no
    /// wait between iterations.
    pub interval: Option<String>,
    pub steps: Vec<RawStep>,
    pub credentials: Option<Credentials>,
    /// Topics to subscribe to before the run starts.
    pub pretest_subscribe: Option<Vec<String>>,
}

/// The protocol a name denotes, if any.
pub open spec fn spec_protocol(p: Seq<char>) -> Option<Protocol> {
    if p == "http"@ {
        Some(Protocol::Http)
    } else if p == "mqtt"@ {
        Some(Protocol::Mqtt)
    } else {
        None
    }
}

/// The interval a scenario runs with: the value of its `interval` field,
/// or zero when the field is absent.
pub open spec fn spec_interval(raw: RawScenario) -> int {
    match raw.interval {
        Some(s) => duration_millis(s@),
        None => 0,
    }
}

/// The checks a scenario document must pass, in the order they are made,
/// and the protocol it names when it passes all of them.
pub open spec fn scenario_check(raw: RawScenario) -> Result<Protocol, ConfigError> {
    if spec_protocol(raw.protocol@) is None {
        Err(ConfigError::UnknownProtocol)
    } else if raw.clients == 0 {
        Err(ConfigError::NoClients)
    } else if raw.clients > usize::MAX {
        Err(ConfigError::TooManyClients)
    } else if raw.port > u16::MAX {
        Err(ConfigError::BadPort)
    } else if !valid_duration(raw.duration@) {
        Err(ConfigError::BadDuration)
    } else if !valid_duration(raw.ramp_up@) {
        Err(ConfigError::BadRampUp)
    } else if raw.interval is Some && (!valid_duration(raw.interval->0@) || duration_millis(
        raw.interval->0@,
    ) > u64::MAX) {
        Err(ConfigError::BadInterval)
    } else if spec_protocol(raw.protocol@) == Some(Protocol::Http) && (exists|i: int|
        0 <= i < raw.steps@.len() && raw.steps@[i].endpoint is None) {
        Err(ConfigError::MissingEndpoint)
    } else if spec_protocol(raw.protocol@) == Some(Protocol::Mqtt) && raw.credentials is None {
        Err(ConfigError::MissingCredentials)
    } else {
        Ok(spec_protocol(raw.protocol@)->0)
    }
}

/// What each step of the document becomes under a protocol: the endpoint
/// to request, or a publish or idle action.
pub open spec fn spec_step(p: Protocol, raw: RawStep) -> StepSpec {
    match p {
        Protocol::Http => StepSpec::Endpoint(raw.endpoint->0),
        Protocol::Mqtt => if raw.publish {
            StepSpec::Publish
        } else {
            StepSpec::Idle
        },
    }
}

/// The checked, immutable description of one run. Shared read-only by all
/// virtual clients; nothing mutates it after construction.
pub struct Scenario {
    pub protocol: Protocol,
    pub host: String,
    pub port: u16,
    pub clients: usize,
    pub ramp_up_millis: u128,
    pub duration_millis: u128,
    pub interval_millis: u64,
    pub steps: Vec<StepSpec>,
    pub credentials: Option<Credentials>,
    pub pretest_subscribe: Vec<String>,
}

impl Scenario {
    /// Checks a scenario document and builds the run configuration.
    /// Fails with the first configuration error, exactly as
    /// `scenario_check` orders them; a failure aborts the run before any
    /// client starts.
    pub fn new(raw: RawScenario) -> (r: Result<Scenario, ConfigError>)
        ensures
            r is Ok <==> scenario_check(raw) is Ok,
            r is Err ==> r->Err_0 == scenario_check(raw)->Err_0,
            r is Ok ==> {
                let s = r->Ok_0;
                &&& s.protocol == scenario_check(raw)->Ok_0
                &&& s.host == raw.host
                &&& s.port == raw.port as u16
                &&& s.clients == raw.clients as usize
                &&& s.ramp_up_millis == duration_millis(raw.ramp_up@)
                &&& s.duration_millis == duration_millis(raw.duration@)
                &&& s.interval_millis == spec_interval(raw)
                &&& s.steps@.len() == raw.steps@.len()
                &&& (forall|i: int|
                    0 <= i < raw.steps@.len() ==> s.steps@[i] == spec_step(
                        s.protocol,
                        raw.steps@[i],
                    ))
                &&& s.credentials == raw.credentials
                &&& s.pretest_subscribe@ == (match raw.pretest_subscribe {
                    Some(topics) => topics@,
                    None => Seq::<String>::empty(),
                })
            },
    {
        let http_name = String::from_str("http");
        let mqtt_name = String::from_str("mqtt");
        let protocol = if raw.protocol == http_name {
            Protocol::Http
        } else if raw.protocol == mqtt_name {
            Protocol::Mqtt
        } else {
            return Err(ConfigError::UnknownProtocol);
        };
        assert(spec_protocol(raw.protocol@) == Some(protocol));
        if raw.clients == 0 {
            return Err(ConfigError::NoClients);
        }
        if raw.clients > usize::MAX as u64 {
            return Err(ConfigError::TooManyClients);
        }
        if raw.port > u16::MAX as u64 {
            return Err(ConfigError::BadPort);
        }
        let duration_ms = match parse_duration(raw.duration.as_str()) {
            Some(v) => v,
            None => {
                return Err(ConfigError::BadDuration);
            },
        };
        let ramp_up_ms = match parse_duration(raw.ramp_up.as_str()) {
            Some(v) => v,
            None => {
                return Err(ConfigError::BadRampUp);
            },
        };
        let interval_ms: u64 = match &raw.interval {
            Some(s) => {
                match parse_duration(s.as_str()) {
                    Some(v) => {
                        if v > u64::MAX as u128 {
                            return Err(ConfigError::BadInterval);
                        }
                        v as u64
                    },
                    None => {
                        return Err(ConfigError::BadInterval);
                    },
                }
            },
            None => 0,
        };
        let mut steps: Vec<StepSpec> = Vec::new();
        let n = raw.steps.len();
        let mut i: usize = 0;
        while i < n
            invariant
                n == raw.steps@.len(),
                i <= n,
                steps@.len() == i,
                forall|j: int| 0 <= j < i ==> steps@[j] == spec_step(protocol, raw.steps@[j]),
                protocol == Protocol::Http ==> forall|j: int|
                    0 <= j < i ==> raw.steps@[j].endpoint is Some,
                spec_protocol(raw.protocol@) == Some(protocol),
                raw.clients != 0,
                raw.clients <= usize::MAX,
                raw.port <= u16::MAX,
                valid_duration(raw.duration@),
                valid_duration(raw.ramp_up@),
                !(raw.interval is Some && (!valid_duration(raw.interval->0@) || duration_millis(
                    raw.interval->0@,
                ) > u64::MAX)),
            decreases n - i,
        {
            let raw_step = &raw.steps[i];
            match protocol {
                Protocol::Http => {
                    match &raw_step.endpoint {
                        Some(e) => {
                            steps.push(StepSpec::Endpoint(e.clone()));
                        },
                        None => {
                            assert(raw.steps@[i as int].endpoint is None);
                            return Err(ConfigError::MissingEndpoint);
                        },
                    }
                },
                Protocol::Mqtt => {
                    if raw_step.publish {
                        steps.push(StepSpec::Publish);
                    } else {
                        steps.push(StepSpec::Idle);
                    }
                },
            }
            i = i + 1;
        }
        if matches!(protocol, Protocol::Mqtt) && matches!(raw.credentials, None) {
            return Err(ConfigError::MissingCredentials);
        }
        let pretest_subscribe = match raw.pretest_subscribe {
            Some(topics) => topics,
            None => Vec::new(),
        };
        Ok(
            Scenario {
                protocol,
                host: raw.host,
                port: raw.port as u16,
                clients: raw.clients as usize,
                ramp_up_millis: ramp_up_ms,
                duration_millis: duration_ms,
                interval_millis: interval_ms,
                steps,
                credentials: raw.credentials,
                pretest_subscribe,
            },
        )
    }

    /// The step list a client starts from, one fresh accumulator set per
    /// step.
    pub fn fresh_steps(&self) -> (r: Vec<crate::step::Step>)
        ensures
            r@.len() == self.steps@.len(),
            forall|i: int|
                0 <= i < r@.len() ==> (#[trigger] r@[i]).step == self.steps@[i] && r@[i].time == 0
                    && r@[i].count == 0 && r@[i].errors == 0,
    {
        let mut out: Vec<crate::step::Step> = Vec::new();
        let n = self.steps.len();
        let mut i: usize = 0;
        while i < n
            invariant
                n == self.steps@.len(),
                i <= n,
                out@.len() == i,
                forall|j: int|
                    0 <= j < i ==> (#[trigger] out@[j]).step == self.steps@[j] && out@[j].time == 0
                        && out@[j].count == 0 && out@[j].errors == 0,
            decreases n - i,
        {
            out.push(crate::step::Step::new(self.steps[i].duplicate()));
            i = i + 1;
        }
        out
    }
}

} // verus!
