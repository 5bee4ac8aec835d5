//! The step model: the ordered list of logical actions a scenario repeats,
//! and the accumulators attached to each step.
//!
//! A step's identity is its position in the ordered sequence; clients match
//! steps across one another by index, never by content.

use vstd::prelude::*;

verus! {

/// What one step of the test loop does each iteration.
pub enum StepSpec {
    /// Request this endpoint over the request/response client.
    Endpoint(String),
    /// Publish the fixed payload over the publish/subscribe client.
    Publish,
    /// A step that carries no action for the chosen protocol.
    Idle,
}

impl StepSpec {
    /// A fresh copy of the step description.
    pub fn duplicate(&self) -> (r: Self)
        ensures
            r == *self,
    {
        match self {
            StepSpec::Endpoint(e) => StepSpec::Endpoint(e.clone()),
            StepSpec::Publish => StepSpec::Publish,
            StepSpec::Idle => StepSpec::Idle,
        }
    }
}

/// One logical action of the scenario together with its private
/// accumulators: cumulative elapsed time, completed-iteration count, and
/// the count of failed calls.
///
/// Failed protocol calls are counted here and the loop goes on, rather
/// than ending the client's task on the first failure; the error count
/// feeds the reported error rate.
pub struct Step {
    pub step: StepSpec,
    pub time: u128,
    pub count: usize,
    pub errors: usize,
}

impl Step {
    /// A step with empty accumulators.
    pub fn new(step: StepSpec) -> (r: Self)
        ensures
            r.step == step,
            r.time == 0,
            r.count == 0,
            r.errors == 0,
    {
        Step { step, time: 0, count: 0, errors: 0 }
    }

    /// The step's action.
    pub fn step(&self) -> (r: &StepSpec)
        ensures
            r == &self.step,
    {
        &self.step
    }

    /// Adds one completed call's elapsed time.
    pub fn add_time(&mut self, time: u128)
        requires
            old(self).time + time <= u128::MAX,
        ensures
            final(self).time == old(self).time + time,
            final(self).count == old(self).count,
            final(self).errors == old(self).errors,
            final(self).step == old(self).step,
    {
        self.time = self.time + time;
    }

    /// Counts one completed call.
    pub fn add_count(&mut self)
        requires
            old(self).count < usize::MAX,
        ensures
            final(self).count == old(self).count + 1,
            final(self).time == old(self).time,
            final(self).errors == old(self).errors,
            final(self).step == old(self).step,
    {
        self.count = self.count + 1;
    }

    /// Counts one failed call.
    pub fn add_error(&mut self)
        requires
            old(self).errors < usize::MAX,
        ensures
            final(self).errors == old(self).errors + 1,
            final(self).time == old(self).time,
            final(self).count == old(self).count,
            final(self).step == old(self).step,
    {
        self.errors = self.errors + 1;
    }

    /// Total elapsed time recorded so far.
    pub fn time(&self) -> (r: u128)
        ensures
            r == self.time,
    {
        self.time
    }

    /// Completed calls recorded so far.
    pub fn count(&self) -> (r: usize)
        ensures
            r == self.count,
    {
        self.count
    }

    /// Failed calls recorded so far.
    pub fn errors(&self) -> (r: usize)
        ensures
            r == self.errors,
    {
        self.errors
    }
}

/// One virtual client's private share of the run: its own copy of the step
/// sequence, the inter-iteration interval and the client's numeric
/// identity. The accumulators inside are private to the client and are
/// only read back after its loop has returned.
pub struct TestClientData {
    pub steps: Vec<Step>,
    pub interval: u64,
    pub id: usize,
}

impl TestClientData {
    /// Client-private data at the start of a run.
    pub fn new(steps: Vec<Step>, interval: u64, id: usize) -> (r: Self)
        ensures
            r.steps == steps,
            r.interval == interval,
            r.id == id,
    {
        TestClientData { steps, interval, id }
    }

    /// The inter-iteration interval in milliseconds.
    pub fn interval(&self) -> (r: u64)
        ensures
            r == self.interval,
    {
        self.interval
    }

    /// The client's own step sequence with its accumulators.
    pub fn steps(&self) -> (r: &Vec<Step>)
        ensures
            r == &self.steps,
    {
        &self.steps
    }

    /// The client's numeric identity.
    pub fn id(&self) -> (r: usize)
        ensures
            r == self.id,
    {
        self.id
    }
}

} // verus!
