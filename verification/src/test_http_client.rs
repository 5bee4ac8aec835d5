//! The request/response virtual client.
//!
//! One simulated user: it owns one raw client, replays the scenario's
//! step sequence in a loop, records per-step latency and count, and obeys
//! the shared stop signal. The stop check happens only at iteration
//! boundaries, so a client may run up to one iteration past the nominal
//! deadline — an accepted trade-off for loop simplicity.

use vstd::prelude::*;
use vstd::string::StringExecFns;

use crate::duration::{dec_rep, render_decimal};
use crate::http_client::{connections_has, connections_wf, HttpClient};
use crate::scenario::Scenario;
use crate::step::{Step, StepSpec, TestClientData};
use crate::test_client::{loop_wf, recorded_step, step_turn, Command};

verus! {

/// The address text a client connects to: `host:port`.
pub open spec fn addr_text(host: Seq<char>, port: u16) -> Seq<char> {
    host + ":"@ + dec_rep(port as nat)
}

/// One request/response virtual client: its raw client, its target
/// address, its private metrics, and its loop position.
pub struct TestHttpClient {
    pub client: HttpClient,
    pub addr: String,
    pub client_data: TestClientData,
    /// Index of the next step within the current iteration.
    pub pos: usize,
    /// Whether this iteration's boundary work — the stop check and the
    /// interval wait — is already done.
    pub waited: bool,
    pub finished: bool,
}

/// A client as the coordinator builds it: fresh accumulators, the loop at
/// an iteration boundary, no connection open yet.
pub open spec fn fresh_http_client(c: TestHttpClient, s: Scenario, id: int) -> bool {
    &&& c.client.connections.addrs@.len() == 0
    &&& c.addr@ == addr_text(s.host@, s.port)
    &&& c.client_data.steps@.len() == s.steps@.len()
    &&& (forall|i: int|
        0 <= i < s.steps@.len() ==> (#[trigger] c.client_data.steps@[i]).step == s.steps@[i]
            && c.client_data.steps@[i].time == 0 && c.client_data.steps@[i].count == 0
            && c.client_data.steps@[i].errors == 0)
    &&& c.client_data.interval == s.interval_millis
    &&& c.client_data.id == id
    &&& c.pos == 0
    &&& !c.waited
    &&& !c.finished
}

impl TestHttpClient {
    /// Builds virtual client `id` for a scenario.
    pub fn new(id: usize, scenario: &Scenario) -> (c: Self)
        ensures
            fresh_http_client(c, *scenario, id as int),
            connections_wf(c.client.connections),
            loop_wf(c.pos as int, c.waited, c.client_data.steps@.len() as int),
    {
        let mut addr = String::from_str(scenario.host.as_str());
        proof {
            reveal_strlit(":");
        }
        addr.append(":");
        let port_text = render_decimal(scenario.port as u128);
        addr.append(port_text.as_str());
        assert(addr@ =~= addr_text(scenario.host@, scenario.port));
        let steps = scenario.fresh_steps();
        let client_data = TestClientData::new(steps, scenario.interval_millis, id);
        TestHttpClient {
            client: HttpClient::new(),
            addr,
            client_data,
            pos: 0,
            waited: false,
            finished: false,
        }
    }

    /// Registers the client's one connection; the process opens the
    /// stream for the slot this returns.
    pub fn connect(&mut self) -> (slot: usize)
        requires
            connections_wf(old(self).client.connections),
        ensures
            connections_wf(final(self).client.connections),
            connections_has(final(self).client.connections, old(self).addr@),
            final(self).addr == old(self).addr,
            final(self).client_data == old(self).client_data,
            final(self).pos == old(self).pos,
            final(self).waited == old(self).waited,
            final(self).finished == old(self).finished,
            slot < final(self).client.connections.addrs@.len(),
            final(self).client.connections.addrs@[slot as int]@ == old(self).addr@,
    {
        let addr = self.addr.clone();
        self.client.connect(addr)
    }

    /// The client's private data, read back after its loop has finished.
    pub fn client_data(&self) -> (r: &TestClientData)
        ensures
            r == &self.client_data,
    {
        &self.client_data
    }

    /// One turn of the run loop. `stopped` is the stop signal as the
    /// process read it; it is honored exactly at iteration boundaries.
    /// The command says what the process performs next; the outcome of a
    /// `Request` comes back through `record`.
    pub fn advance(&mut self, stopped: bool) -> (r: Command)
        requires
            loop_wf(
                old(self).pos as int,
                old(self).waited,
                old(self).client_data.steps@.len() as int,
            ),
            !old(self).finished,
        ensures
            final(self).client == old(self).client,
            final(self).addr == old(self).addr,
            final(self).client_data == old(self).client_data,
            loop_wf(
                final(self).pos as int,
                final(self).waited,
                final(self).client_data.steps@.len() as int,
            ),
            (old(self).pos == 0 && !old(self).waited && stopped) ==> (r is Finish && final(self).finished),
            !(old(self).pos == 0 && !old(self).waited && stopped) ==> !final(self).finished,
            (old(self).pos == 0 && !old(self).waited && !stopped && old(self).client_data.interval
                != 0) ==> (r matches Command::Wait(w) && w == old(self).client_data.interval
                && final(self).waited && final(self).pos == 0),
            (old(self).pos == 0 && !old(self).waited && !stopped && old(self).client_data.interval
                == 0 && old(self).client_data.steps@.len() > 0) ==> step_turn(
                old(self).client_data,
                0,
                r,
                final(self).pos as int,
                final(self).waited,
            ),
            (old(self).pos == 0 && !old(self).waited && !stopped && old(self).client_data.interval
                == 0 && old(self).client_data.steps@.len() == 0) ==> (r is Pass && !final(self).waited && final(self).pos == 0),
            (old(self).waited && old(self).client_data.steps@.len() > 0) ==> step_turn(
                old(self).client_data,
                old(self).pos as int,
                r,
                final(self).pos as int,
                final(self).waited,
            ),
            (old(self).waited && old(self).client_data.steps@.len() == 0) ==> (r is Pass && !final(self).waited && final(self).pos == 0),
    {
        if self.pos == 0 && !self.waited {
            if stopped {
                self.finished = true;
                return Command::Finish;
            }
            let interval = self.client_data.interval;
            if interval != 0 {
                self.waited = true;
                return Command::Wait(interval);
            }
            if self.client_data.steps.len() == 0 {
                return Command::Pass;
            }
            self.waited = true;
        } else if self.client_data.steps.len() == 0 {
            self.waited = false;
            return Command::Pass;
        }
        let step = &self.client_data.steps[self.pos].step;
        match step {
            StepSpec::Endpoint(e) => Command::Request(e.clone()),
            StepSpec::Publish => Command::Publish {
                topic: String::from_str("some/topic"),
                payload: String::from_str("hej"),
            },
            StepSpec::Idle => {
                if self.pos + 1 == self.client_data.steps.len() {
                    self.pos = 0;
                    self.waited = false;
                } else {
                    self.pos = self.pos + 1;
                }
                Command::Pass
            },
        }
    }

    /// Hands back the outcome of the call the last `advance` asked for:
    /// the measured elapsed time and whether the call completed. The
    /// outcome goes to the step at the current position, and the loop
    /// moves on.
    pub fn record(&mut self, elapsed: u128, ok: bool)
        requires
            loop_wf(
                old(self).pos as int,
                old(self).waited,
                old(self).client_data.steps@.len() as int,
            ),
            old(self).waited,
            !old(self).finished,
            old(self).client_data.steps@.len() > 0,
        ensures
            final(self).client == old(self).client,
            final(self).addr == old(self).addr,
            !final(self).finished,
            final(self).client_data.interval == old(self).client_data.interval,
            final(self).client_data.id == old(self).client_data.id,
            final(self).client_data.steps@ == old(self).client_data.steps@.update(
                old(self).pos as int,
                recorded_step(old(self).client_data.steps@[old(self).pos as int], elapsed, ok),
            ),
            if old(self).pos + 1 == old(self).client_data.steps@.len() {
                final(self).pos == 0 && !final(self).waited
            } else {
                final(self).pos == old(self).pos + 1 && final(self).waited
            },
            loop_wf(
                final(self).pos as int,
                final(self).waited,
                final(self).client_data.steps@.len() as int,
            ),
    {
        let p = self.pos;
        let sp = self.client_data.steps[p].step.duplicate();
        let t = self.client_data.steps[p].time;
        let c = self.client_data.steps[p].count;
        let e = self.client_data.steps[p].errors;
        let new_time: u128 = if ok {
            match t.checked_add(elapsed) {
                Some(v) => v,
                None => u128::MAX,
            }
        } else {
            t
        };
        let new_count: usize = if ok && c < usize::MAX {
            c + 1
        } else {
            c
        };
        let new_errors: usize = if !ok && e < usize::MAX {
            e + 1
        } else {
            e
        };
        self.client_data.steps[p] = Step {
            step: sp,
            time: new_time,
            count: new_count,
            errors: new_errors,
        };
        let len = self.client_data.steps.len();
        assert(p < len);
        if p + 1 == len {
            self.pos = 0;
            self.waited = false;
        } else {
            self.pos = p + 1;
        }
    }
}

} // verus!
