//! The run coordinator: the scenario-wide lifecycle.
//!
//! The coordinator builds the client population, staggers their starts
//! across the ramp-up window, runs the deadline timer that fires the stop
//! signal, and — after every client has finished — reduces the per-client
//! step metrics by index-wise summation into the scenario-level totals.
//! The reduction runs single-threaded after the join, so the hot
//! per-request path never touches a shared counter.

use vstd::prelude::*;

use crate::scenario::{Protocol, Scenario};
use crate::step::Step;
use crate::test_client::TestClient;
use crate::test_http_client::{fresh_http_client, TestHttpClient};
use crate::test_mqtt_client::{fresh_mqtt_client, TestMqttClient};

verus! {

/// Builds the request/response client population: one fresh virtual
/// client per id, ids counted from zero.
pub fn create_http_clients(scenario: &Scenario) -> (clients: Vec<TestClient>)
    ensures
        clients@.len() == scenario.clients,
        forall|i: int|
            0 <= i < scenario.clients ==> ((#[trigger] clients@[i]) matches TestClient::Http(c)
                && fresh_http_client(c, *scenario, i)),
{
    let mut clients: Vec<TestClient> = Vec::new();
    let n = scenario.clients;
    let mut i: usize = 0;
    while i < n
        invariant
            i <= n,
            clients@.len() == i,
            forall|j: int|
                0 <= j < i ==> ((#[trigger] clients@[j]) matches TestClient::Http(c)
                    && fresh_http_client(c, *scenario, j)),
        decreases n - i,
    {
        clients.push(TestClient::Http(TestHttpClient::new(i, scenario)));
        i = i + 1;
    }
    clients
}

/// Builds the publish/subscribe client population the same way.
pub fn create_mqtt_clients(scenario: &Scenario) -> (clients: Vec<TestClient>)
    requires
        scenario.credentials is Some,
    ensures
        clients@.len() == scenario.clients,
        forall|i: int|
            0 <= i < scenario.clients ==> ((#[trigger] clients@[i]) matches TestClient::Mqtt(c)
                && fresh_mqtt_client(c, *scenario, i)),
{
    let mut clients: Vec<TestClient> = Vec::new();
    let n = scenario.clients;
    let mut i: usize = 0;
    while i < n
        invariant
            i <= n,
            clients@.len() == i,
            scenario.credentials is Some,
            forall|j: int|
                0 <= j < i ==> ((#[trigger] clients@[j]) matches TestClient::Mqtt(c)
                    && fresh_mqtt_client(c, *scenario, j)),
        decreases n - i,
    {
        clients.push(TestClient::Mqtt(TestMqttClient::new(i, scenario)));
        i = i + 1;
    }
    clients
}

/// Builds the scenario's client population, the protocol variant chosen
/// once here and never again.
pub fn create_clients(scenario: &Scenario) -> (clients: Vec<TestClient>)
    requires
        scenario.protocol == Protocol::Mqtt ==> scenario.credentials is Some,
    ensures
        clients@.len() == scenario.clients,
        scenario.protocol == Protocol::Http ==> forall|i: int|
            0 <= i < scenario.clients ==> ((#[trigger] clients@[i]) matches TestClient::Http(c)
                && fresh_http_client(c, *scenario, i)),
        scenario.protocol == Protocol::Mqtt ==> forall|i: int|
            0 <= i < scenario.clients ==> ((#[trigger] clients@[i]) matches TestClient::Mqtt(c)
                && fresh_mqtt_client(c, *scenario, i)),
{
    match scenario.protocol {
        Protocol::Http => create_http_clients(scenario),
        Protocol::Mqtt => create_mqtt_clients(scenario),
    }
}

/// The wait between two spawns during ramp-up. The coordinator waits this
/// long on its own execution context before each spawn, so the whole
/// population starts within the ramp-up window: a deliberate
/// serialization of the spawn loop, never more than the window itself.
pub fn stagger_offset(ramp_up_millis: u64, clients: usize) -> (offset: u64)
    requires
        clients >= 1,
    ensures
        offset == ramp_up_millis as int / clients as int,
        offset * clients <= ramp_up_millis,
{
    let offset = ramp_up_millis / (clients as u64);
    proof {
        let r = ramp_up_millis as int;
        let c = clients as int;
        assert((r / c) * c <= r) by (nonlinear_arith)
            requires
                c >= 1 && r >= 0,
        ;
    }
    offset
}

/// Law: staggering on the spawning context keeps every start inside the
/// ramp-up window. The `k`-th client starts `k` offsets after the run
/// begins, and even the last start is no later than the window's end —
/// bounded by the configured ramp-up, not an unbounded multiple of it.
pub proof fn lemma_stagger_within_ramp_up(ramp_up_millis: int, clients: int, k: int)
    requires
        clients >= 1,
        ramp_up_millis >= 0,
        0 <= k <= clients,
    ensures
        k * (ramp_up_millis / clients) <= ramp_up_millis,
{
    let o = ramp_up_millis / clients;
    assert(o >= 0);
    assert(k * o <= clients * o) by (nonlinear_arith)
        requires
            o >= 0 && k <= clients,
    ;
    assert(clients * o <= ramp_up_millis) by (nonlinear_arith)
        requires
            clients >= 1 && ramp_up_millis >= 0 && o == ramp_up_millis / clients,
    ;
}

/// Law: a run loop that starts when the run starts, whose iteration
/// boundaries are never more than one iteration period apart, and which
/// stops at the first boundary at or past the configured duration,
/// finishes within one iteration period of that duration. With a zero
/// ramp-up this holds of every client, so the observed wall time of the
/// whole run is the configured duration give or take one iteration
/// period.
pub proof fn lemma_run_walltime(boundaries: Seq<int>, period: int, duration: int, i: int)
    requires
        boundaries.len() > 0,
        boundaries[0] == 0,
        forall|j: int|
            0 <= j < boundaries.len() - 1 ==> boundaries[j] <= #[trigger] boundaries[j + 1]
                <= boundaries[j] + period,
        0 <= i < boundaries.len(),
        boundaries[i] >= duration,
        forall|j: int| 0 <= j < i ==> #[trigger] boundaries[j] < duration,
        duration >= 0,
        period >= 0,
    ensures
        duration <= boundaries[i] <= duration + period,
{
    if i > 0 {
        assert(boundaries[i - 1] < duration);
        assert(boundaries[(i - 1) + 1] <= boundaries[i - 1] + period);
    }
}

/// The per-client step sequences, as mathematical sequences.
pub open spec fn step_views(results: Seq<Vec<Step>>) -> Seq<Seq<Step>> {
    results.map_values(|v: Vec<Step>| v@)
}

/// Sum over all clients of the time recorded for step `i`.
pub open spec fn total_time_at(results: Seq<Seq<Step>>, i: int) -> int
    decreases results.len(),
{
    if results.len() == 0 {
        0
    } else {
        total_time_at(results.drop_last(), i) + results.last()[i].time
    }
}

/// Sum over all clients of the completed calls recorded for step `i`.
pub open spec fn total_count_at(results: Seq<Seq<Step>>, i: int) -> int
    decreases results.len(),
{
    if results.len() == 0 {
        0
    } else {
        total_count_at(results.drop_last(), i) + results.last()[i].count
    }
}

/// Sum over all clients of the failed calls recorded for step `i`.
pub open spec fn total_errors_at(results: Seq<Seq<Step>>, i: int) -> int
    decreases results.len(),
{
    if results.len() == 0 {
        0
    } else {
        total_errors_at(results.drop_last(), i) + results.last()[i].errors
    }
}

/// A prefix of the clients never outweighs the whole population: each
/// per-step sum only grows as clients are added.
proof fn lemma_totals_take_le(results: Seq<Seq<Step>>, i: int, c: int)
    requires
        0 <= c <= results.len(),
    ensures
        total_time_at(results.take(c), i) <= total_time_at(results, i),
        total_count_at(results.take(c), i) <= total_count_at(results, i),
        total_errors_at(results.take(c), i) <= total_errors_at(results, i),
    decreases results.len() - c,
{
    if c == results.len() {
        assert(results.take(c) =~= results);
    } else {
        lemma_totals_take_le(results, i, c + 1);
        assert(results.take(c + 1).drop_last() =~= results.take(c));
        assert(results.take(c + 1).last() == results[c]);
    }
}

/// One step's scenario-level totals after the reduction.
pub struct StepTotals {
    pub time: u128,
    pub count: usize,
    pub errors: usize,
}

/// Reduces the joined clients' per-step metrics by index-wise summation:
/// one totals entry per step of the scenario, each the sum of that step's
/// accumulators across every client. Derived data only, built after all
/// clients have finished.
pub fn aggregate(results: &Vec<Vec<Step>>, k: usize) -> (totals: Vec<StepTotals>)
    requires
        forall|c: int| 0 <= c < results@.len() ==> (#[trigger] results@[c])@.len() == k,
        forall|i: int|
            0 <= i < k ==> total_time_at(step_views(results@), i) <= u128::MAX && total_count_at(
                step_views(results@),
                i,
            ) <= usize::MAX && total_errors_at(step_views(results@), i) <= usize::MAX,
    ensures
        totals@.len() == k,
        forall|i: int|
            0 <= i < k ==> (#[trigger] totals@[i]).time == total_time_at(step_views(results@), i)
                && totals@[i].count == total_count_at(step_views(results@), i)
                && totals@[i].errors == total_errors_at(step_views(results@), i),
{
    let ghost vs = step_views(results@);
    let mut totals: Vec<StepTotals> = Vec::new();
    let n = results.len();
    let mut i: usize = 0;
    while i < k
        invariant
            n == results@.len(),
            i <= k,
            totals@.len() == i,
            vs == step_views(results@),
            forall|c: int| 0 <= c < results@.len() ==> (#[trigger] results@[c])@.len() == k,
            forall|j: int|
                0 <= j < k ==> total_time_at(vs, j) <= u128::MAX && total_count_at(vs, j)
                    <= usize::MAX && total_errors_at(vs, j) <= usize::MAX,
            forall|j: int|
                0 <= j < i ==> (#[trigger] totals@[j]).time == total_time_at(vs, j)
                    && totals@[j].count == total_count_at(vs, j) && totals@[j].errors
                    == total_errors_at(vs, j),
        decreases k - i,
    {
        let mut time: u128 = 0;
        let mut count: usize = 0;
        let mut errors: usize = 0;
        let mut c: usize = 0;
        while c < n
            invariant
                n == results@.len(),
                i < k,
                c <= n,
                vs == step_views(results@),
                forall|cc: int| 0 <= cc < results@.len() ==> (#[trigger] results@[cc])@.len() == k,
                forall|j: int|
                    0 <= j < k ==> total_time_at(vs, j) <= u128::MAX && total_count_at(vs, j)
                        <= usize::MAX && total_errors_at(vs, j) <= usize::MAX,
                time == total_time_at(vs.take(c as int), i as int),
                count == total_count_at(vs.take(c as int), i as int),
                errors == total_errors_at(vs.take(c as int), i as int),
            decreases n - c,
        {
            proof {
                assert(vs.take(c as int + 1).drop_last() =~= vs.take(c as int));
                assert(vs.take(c as int + 1).last() == vs[c as int]);
                assert(vs[c as int] == results@[c as int]@);
                lemma_totals_take_le(vs, i as int, c as int + 1);
            }
            let client_steps = &results[c];
            time = time + client_steps[i].time;
            count = count + client_steps[i].count;
            errors = errors + client_steps[i].errors;
            c = c + 1;
        }
        proof {
            assert(vs.take(n as int) =~= vs);
        }
        totals.push(StepTotals { time, count, errors });
        i = i + 1;
    }
    totals
}

/// The average response time of a step, in milliseconds: total time over
/// completed calls. A step that completed nothing has no average — the
/// report shows it as undefined rather than dividing by zero.
pub fn average_latency(total_time: u128, count: usize) -> (r: Option<u128>)
    ensures
        r is None <==> count == 0,
        r is Some ==> r->0 == total_time as int / count as int,
{
    if count == 0 {
        None
    } else {
        Some(total_time / (count as u128))
    }
}

/// A step's throughput in completed calls per second over the run's wall
/// time. Undefined until any wall time has passed.
pub fn requests_per_second(count: usize, elapsed_millis: u128) -> (r: Option<u128>)
    ensures
        r is None <==> elapsed_millis == 0,
        r is Some ==> r->0 == (count * 1000) as int / elapsed_millis as int,
{
    if elapsed_millis == 0 {
        None
    } else {
        Some((count as u128) * 1000 / elapsed_millis)
    }
}

/// Whole percent of attempted calls that failed. Undefined when nothing
/// was attempted; failures are reported, never silently dropped.
pub fn error_rate_percent(errors: usize, attempts: usize) -> (r: Option<u128>)
    ensures
        r is None <==> attempts == 0,
        r is Some ==> r->0 == (errors * 100) as int / attempts as int,
        r is Some && errors <= attempts ==> r->0 <= 100,
{
    if attempts == 0 {
        None
    } else {
        let rate = (errors as u128) * 100 / (attempts as u128);
        proof {
            let e = errors as int;
            let a = attempts as int;
            assert(e <= a ==> e * 100 / a <= 100) by (nonlinear_arith)
                requires
                    a >= 1 && e >= 0,
            ;
        }
        Some(rate)
    }
}

} // verus!
