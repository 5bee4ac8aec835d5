//! The publish/subscribe virtual client.
//!
//! The same run-loop shape as the request/response client, over a pub/sub
//! session: every step flagged as a publish action publishes the fixed
//! payload, and when the stop signal fires the client publishes one
//! terminal stop marker before its loop ends. A background poller drains
//! the session's event loop concurrently; its poll failures are
//! recoverable and it simply tries again.

use vstd::prelude::*;
use vstd::string::StringExecFns;

use crate::duration::{dec_rep, render_decimal};
use crate::scenario::Scenario;
use crate::step::{Step, StepSpec, TestClientData};
use crate::test_client::{loop_wf, recorded_step, step_turn, Command};

verus! {

/// The session identity of client `id`: `mqtt_client_` and its number.
pub open spec fn client_id_text(id: int) -> Seq<char> {
    "mqtt_client_"@ + dec_rep(id as nat)
}

/// What the process needs to open one pub/sub session.
pub struct MqttParams {
    pub client_id: String,
    pub host: String,
    pub port: u16,
    pub username: String,
    pub password: String,
}

/// One publish/subscribe virtual client: its session parameters, the
/// topics its pretest subscribes to, its private metrics, and its loop
/// position.
pub struct TestMqttClient {
    pub params: MqttParams,
    pub pretest_topics: Vec<String>,
    pub client_data: TestClientData,
    /// Index of the next step within the current iteration.
    pub pos: usize,
    /// Whether this iteration's boundary work is already done.
    pub waited: bool,
    /// Whether the terminal stop marker has been handed out.
    pub stop_published: bool,
    pub finished: bool,
}

/// A client as the coordinator builds it.
pub open spec fn fresh_mqtt_client(c: TestMqttClient, s: Scenario, id: int) -> bool {
    &&& c.params.client_id@ == client_id_text(id)
    &&& c.params.host@ == s.host@
    &&& c.params.port == s.port
    &&& c.params.username@ == s.credentials->0.username@
    &&& c.params.password@ == s.credentials->0.password@
    &&& c.pretest_topics@.len() == s.pretest_subscribe@.len()
    &&& (forall|i: int|
        0 <= i < s.pretest_subscribe@.len() ==> (#[trigger] c.pretest_topics@[i])@
            == s.pretest_subscribe@[i]@)
    &&& c.client_data.steps@.len() == s.steps@.len()
    &&& (forall|i: int|
        0 <= i < s.steps@.len() ==> (#[trigger] c.client_data.steps@[i]).step == s.steps@[i]
            && c.client_data.steps@[i].time == 0 && c.client_data.steps@[i].count == 0
            && c.client_data.steps@[i].errors == 0)
    &&& c.client_data.interval == s.interval_millis
    &&& c.client_data.id == id
    &&& c.pos == 0
    &&& !c.waited
    &&& !c.stop_published
    &&& !c.finished
}

impl TestMqttClient {
    /// Builds virtual client `id` for a scenario that carries
    /// credentials.
    pub fn new(id: usize, scenario: &Scenario) -> (c: Self)
        requires
            scenario.credentials is Some,
        ensures
            fresh_mqtt_client(c, *scenario, id as int),
            loop_wf(c.pos as int, c.waited, c.client_data.steps@.len() as int),
    {
        let mut client_id = String::from_str("mqtt_client_");
        let id_text = render_decimal(id as u128);
        client_id.append(id_text.as_str());
        assert(client_id@ =~= client_id_text(id as int));
        let creds = match &scenario.credentials {
            Some(creds) => creds.duplicate(),
            None => {
                proof {
                    assert(false);
                }
                crate::scenario::Credentials {
                    username: String::new(),
                    password: String::new(),
                }
            },
        };
        let params = MqttParams {
            client_id,
            host: scenario.host.clone(),
            port: scenario.port,
            username: creds.username,
            password: creds.password,
        };
        let mut topics: Vec<String> = Vec::new();
        let n = scenario.pretest_subscribe.len();
        let mut i: usize = 0;
        while i < n
            invariant
                n == scenario.pretest_subscribe@.len(),
                i <= n,
                topics@.len() == i,
                forall|j: int|
                    0 <= j < i ==> (#[trigger] topics@[j])@ == scenario.pretest_subscribe@[j]@,
            decreases n - i,
        {
            topics.push(scenario.pretest_subscribe[i].clone());
            i = i + 1;
        }
        let steps = scenario.fresh_steps();
        let client_data = TestClientData::new(steps, scenario.interval_millis, id);
        TestMqttClient {
            params,
            pretest_topics: topics,
            client_data,
            pos: 0,
            waited: false,
            stop_published: false,
            finished: false,
        }
    }

    /// The topics the pretest phase subscribes to; the process awaits
    /// every one of these before any client's run loop starts, so the
    /// subscriptions are active before the first publish.
    pub fn pretest(&self) -> (r: &Vec<String>)
        ensures
            r == &self.pretest_topics,
    {
        &self.pretest_topics
    }

    /// The client's private data, read back after its loop has finished.
    pub fn client_data(&self) -> (r: &TestClientData)
        ensures
            r == &self.client_data,
    {
        &self.client_data
    }

    /// One turn of the run loop. Honors the stop signal at iteration
    /// boundaries: first one terminal stop marker goes out, then the
    /// loop finishes.
    pub fn advance(&mut self, stopped: bool) -> (r: Command)
        requires
            loop_wf(
                old(self).pos as int,
                old(self).waited,
                old(self).client_data.steps@.len() as int,
            ),
            !old(self).finished,
        ensures
            final(self).params == old(self).params,
            final(self).pretest_topics == old(self).pretest_topics,
            final(self).client_data == old(self).client_data,
            loop_wf(
                final(self).pos as int,
                final(self).waited,
                final(self).client_data.steps@.len() as int,
            ),
            (old(self).pos == 0 && !old(self).waited && stopped && !old(self).stop_published) ==> (
            r matches Command::PublishStop { topic, payload } && topic@ == "stop"@ && payload@
                == "stop"@ && final(self).stop_published && !final(self).finished && final(self).pos == 0),
            (old(self).pos == 0 && !old(self).waited && stopped && old(self).stop_published) ==> (r
                is Finish && final(self).finished),
            !(old(self).pos == 0 && !old(self).waited && stopped) ==> final(self).stop_published
                == old(self).stop_published,
            !(old(self).pos == 0 && !old(self).waited && stopped && old(self).stop_published)
                ==> !final(self).finished,
            (old(self).pos == 0 && !old(self).waited && !stopped && old(self).client_data.interval
                != 0) ==> (r matches Command::Wait(w) && w == old(self).client_data.interval
                && final(self).waited && final(self).pos == 0),
            (old(self).pos == 0 && !old(self).waited && !stopped && old(self).client_data.interval
                == 0 && old(self).client_data.steps@.len() > 0) ==> step_turn(
                old(self).client_data,
                0,
                r,
                final(self).pos as int,
                final(self).waited,
            ),
            (old(self).pos == 0 && !old(self).waited && !stopped && old(self).client_data.interval
                == 0 && old(self).client_data.steps@.len() == 0) ==> (r is Pass && !final(self).waited && final(self).pos == 0),
            (old(self).waited && old(self).client_data.steps@.len() > 0) ==> step_turn(
                old(self).client_data,
                old(self).pos as int,
                r,
                final(self).pos as int,
                final(self).waited,
            ),
            (old(self).waited && old(self).client_data.steps@.len() == 0) ==> (r is Pass && !final(self).waited && final(self).pos == 0),
    {
        if self.pos == 0 && !self.waited {
            if stopped {
                if !self.stop_published {
                    self.stop_published = true;
                    return Command::PublishStop {
                        topic: String::from_str("stop"),
                        payload: String::from_str("stop"),
                    };
                }
                self.finished = true;
                return Command::Finish;
            }
            let interval = self.client_data.interval;
            if interval != 0 {
                self.waited = true;
                return Command::Wait(interval);
            }
            if self.client_data.steps.len() == 0 {
                return Command::Pass;
            }
            self.waited = true;
        } else if self.client_data.steps.len() == 0 {
            self.waited = false;
            return Command::Pass;
        }
        let step = &self.client_data.steps[self.pos].step;
        match step {
            StepSpec::Endpoint(e) => Command::Request(e.clone()),
            StepSpec::Publish => Command::Publish {
                topic: String::from_str("some/topic"),
                payload: String::from_str("hej"),
            },
            StepSpec::Idle => {
                if self.pos + 1 == self.client_data.steps.len() {
                    self.pos = 0;
                    self.waited = false;
                } else {
                    self.pos = self.pos + 1;
                }
                Command::Pass
            },
        }
    }

    /// Hands back the outcome of the publish the last `advance` asked
    /// for; the outcome goes to the step at the current position and the
    /// loop moves on.
    pub fn record(&mut self, elapsed: u128, ok: bool)
        requires
            loop_wf(
                old(self).pos as int,
                old(self).waited,
                old(self).client_data.steps@.len() as int,
            ),
            old(self).waited,
            !old(self).finished,
            old(self).client_data.steps@.len() > 0,
        ensures
            final(self).params == old(self).params,
            final(self).pretest_topics == old(self).pretest_topics,
            !final(self).finished,
            final(self).stop_published == old(self).stop_published,
            final(self).client_data.interval == old(self).client_data.interval,
            final(self).client_data.id == old(self).client_data.id,
            final(self).client_data.steps@ == old(self).client_data.steps@.update(
                old(self).pos as int,
                recorded_step(old(self).client_data.steps@[old(self).pos as int], elapsed, ok),
            ),
            if old(self).pos + 1 == old(self).client_data.steps@.len() {
                final(self).pos == 0 && !final(self).waited
            } else {
                final(self).pos == old(self).pos + 1 && final(self).waited
            },
            loop_wf(
                final(self).pos as int,
                final(self).waited,
                final(self).client_data.steps@.len() as int,
            ),
    {
        let p = self.pos;
        let sp = self.client_data.steps[p].step.duplicate();
        let t = self.client_data.steps[p].time;
        let c = self.client_data.steps[p].count;
        let e = self.client_data.steps[p].errors;
        let new_time: u128 = if ok {
            match t.checked_add(elapsed) {
                Some(v) => v,
                None => u128::MAX,
            }
        } else {
            t
        };
        let new_count: usize = if ok && c < usize::MAX {
            c + 1
        } else {
            c
        };
        let new_errors: usize = if !ok && e < usize::MAX {
            e + 1
        } else {
            e
        };
        self.client_data.steps[p] = Step {
            step: sp,
            time: new_time,
            count: new_count,
            errors: new_errors,
        };
        let len = self.client_data.steps.len();
        assert(p < len);
        if p + 1 == len {
            self.pos = 0;
            self.waited = false;
        } else {
            self.pos = p + 1;
        }
    }
}

/// The background poller of a pub/sub session: it drains the session's
/// event loop until the stop signal fires. A failed poll is recoverable;
/// the poller counts nothing for it and tries again on the next turn.
pub struct EventPoller {
    pub response_count: u64,
}

impl EventPoller {
    /// A poller that has seen nothing yet.
    pub fn new() -> (p: Self)
        ensures
            p.response_count == 0,
    {
        EventPoller { response_count: 0 }
    }

    /// One poll outcome: a delivered event is counted, a failed poll is
    /// not, and polling goes on exactly until the stop signal has fired.
    pub fn on_poll(&mut self, ok: bool, stopped: bool) -> (go_on: bool)
        ensures
            final(self).response_count == if ok && old(self).response_count < u64::MAX {
                old(self).response_count + 1
            } else {
                old(self).response_count as int
            },
            go_on == !stopped,
    {
        if ok && self.response_count < u64::MAX {
            self.response_count = self.response_count + 1;
        }
        !stopped
    }
}

} // verus!
