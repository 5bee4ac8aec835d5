//! What a virtual client asks of the process that drives it.
//!
//! A virtual client is a state machine: each call to its `advance` hands
//! the process one command — wait, perform one protocol call, or finish —
//! and the outcome of a performed call is handed back through `record`.
//! The process owns the sockets, the sleeps and the scheduling; every
//! decision stands here and is verified.

use vstd::prelude::*;

use crate::test_http_client::TestHttpClient;
use crate::test_mqtt_client::TestMqttClient;

verus! {

/// One command of a virtual client to the process driving it.
pub enum Command {
    /// Suspend cooperatively for this many milliseconds.
    Wait(u64),
    /// Request this endpoint on the client's connection, measure the
    /// round trip, and hand the elapsed time back through `record`.
    Request(String),
    /// Publish this payload to this topic, and hand the outcome back
    /// through `record`.
    Publish { topic: String, payload: String },
    /// Publish the terminal stop marker; the loop ends on the next turn.
    PublishStop { topic: String, payload: String },
    /// Nothing to do on this turn.
    Pass,
    /// The run loop is done; the client's metrics may be collected.
    Finish,
}

/// A turn taken mid-iteration: the command belonging to the step at the
/// current position. An endpoint step asks for one request and the loop
/// stays put until the outcome is recorded; a publish step asks for one
/// publish of the fixed payload the same way; an idle step is passed
/// over, and past the last step the loop returns to the iteration
/// boundary.
pub open spec fn step_turn(
    d: crate::step::TestClientData,
    pos: int,
    r: Command,
    new_pos: int,
    new_waited: bool,
) -> bool {
    match d.steps@[pos].step {
        crate::step::StepSpec::Endpoint(e) => {
            &&& r matches Command::Request(ep) && ep@ == e@
            &&& new_pos == pos
            &&& new_waited
        },
        crate::step::StepSpec::Publish => {
            &&& r matches Command::Publish { topic, payload } && topic@ == "some/topic"@
                && payload@ == "hej"@
            &&& new_pos == pos
            &&& new_waited
        },
        crate::step::StepSpec::Idle => {
            &&& r is Pass
            &&& if pos + 1 == d.steps@.len() {
                new_pos == 0 && !new_waited
            } else {
                new_pos == pos + 1 && new_waited
            }
        },
    }
}

/// The accumulators of a step after one performed call: a completed call
/// adds its elapsed time and one count, a failed one adds one error and
/// the loop goes on. The sums saturate rather than wrap.
pub open spec fn recorded_step(s: crate::step::Step, elapsed: u128, ok: bool) -> crate::step::Step {
    crate::step::Step {
        step: s.step,
        time: if ok {
            if s.time + elapsed > u128::MAX {
                u128::MAX
            } else {
                (s.time + elapsed) as u128
            }
        } else {
            s.time
        },
        count: if ok && s.count < usize::MAX {
            (s.count + 1) as usize
        } else {
            s.count
        },
        errors: if !ok && s.errors < usize::MAX {
            (s.errors + 1) as usize
        } else {
            s.errors
        },
    }
}

/// A client's loop position is well formed: the step index stays inside
/// the step sequence, and a nonzero index only occurs mid-iteration.
pub open spec fn loop_wf(pos: int, waited: bool, len: int) -> bool {
    &&& if len == 0 {
        pos == 0
    } else {
        pos < len
    }
    &&& 0 <= pos
    &&& (pos != 0 ==> waited)
}

/// The closed set of protocol variants a scenario can drive, selected
/// once when the clients are built.
pub enum TestClient {
    Http(TestHttpClient),
    Mqtt(TestMqttClient),
}

impl TestClient {
    /// The client's private data, read back after its loop has finished.
    pub fn client_data(&self) -> (r: &crate::step::TestClientData)
        ensures
            r == match self {
                TestClient::Http(c) => &c.client_data,
                TestClient::Mqtt(c) => &c.client_data,
            },
    {
        match self {
            TestClient::Http(c) => c.client_data(),
            TestClient::Mqtt(c) => c.client_data(),
        }
    }
}

} // verus!
