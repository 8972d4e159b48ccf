//! The two queries the client makes against the gateway: the public-address
//! query and the port-mapping query, both driven by the backoff-retry
//! schedule of [`crate::backoff`].
//!
//! Each query is a policy on transport events (`*_decide`), a single
//! attempt combining that policy with the backoff bookkeeping
//! (`*_query_step`), and a whole run folding the steps over a sequence of
//! observed events (`run_*`). A long-running client performs its sends and
//! sleeps between steps; a run over a pre-recorded event sequence exercises
//! exactly the same decisions.
//!
//! Response-kind policy: a public-address query treats a response of the
//! wrong kind as a protocol violation and aborts at once, while a mapping
//! query logs-and-waits, letting the backoff ceiling bound how long a
//! gateway that never grants a TCP mapping can hold it up.

use vstd::prelude::*;

use crate::backoff::{BackoffState, LAST_ATTEMPT, MAX_ATTEMPTS, MAX_TIMEOUT_MS, lemma_timeout_ceiling, timeout_at};
use crate::protocol::{MappingRequest, PortMapping, Protocol, PublicAddressInfo, QueryError, TransportEvent};

verus! {

/// Lifetime, in seconds, that every mapping request asks the gateway for.
/// The gateway may grant a different lifetime; the granted one is what the
/// returned mapping carries.
pub const REQUESTED_LIFETIME_SECS: u32 = 360;

/// The request a mapping query sends on every attempt: always TCP, always
/// the fixed requested lifetime, the given ports.
pub fn mapping_request(internal_port: u16, external_port: u16) -> (r: MappingRequest)
    ensures
        r == (MappingRequest {
            protocol: Protocol::Tcp,
            internal_port,
            external_port,
            lifetime_secs: REQUESTED_LIFETIME_SECS,
        }),
{
    MappingRequest {
        protocol: Protocol::Tcp,
        internal_port,
        external_port,
        lifetime_secs: REQUESTED_LIFETIME_SECS,
    }
}

/// The request of fresh-acquisition mode: both ports zero, so the gateway
/// allocates whatever mapping it has available.
pub fn fresh_mapping_request() -> (r: MappingRequest)
    ensures
        r == (MappingRequest {
            protocol: Protocol::Tcp,
            internal_port: 0,
            external_port: 0,
            lifetime_secs: REQUESTED_LIFETIME_SECS,
        }),
{
    mapping_request(0, 0)
}

/// What one attempt of a query concludes from the event it observed.
#[derive(Clone, Copy, Debug, PartialEq, Eq, Structural)]
pub enum MappingStep {
    /// An acceptable mapping: the query is over.
    Granted(PortMapping),
    /// Nothing usable yet: double the timeout and try again.
    Retry,
    /// A failure that must not be retried.
    Abort(QueryError),
}

/// Counterpart of [`MappingStep`] for the public-address query.
#[derive(Clone, Copy, Debug, PartialEq, Eq, Structural)]
pub enum GatewayStep {
    Granted(PublicAddressInfo),
    Retry,
    Abort(QueryError),
}

/// Whether a mapping query accepts the event as its answer. In
/// fresh-acquisition mode (`verify` false) any TCP mapping response is
/// acceptable, whatever its ports; in verify (renewal) mode the response
/// must carry exactly the requested internal and external ports and a
/// positive lifetime.
pub open spec fn spec_mapping_accepts(
    internal_port: u16,
    external_port: u16,
    verify: bool,
    ev: TransportEvent,
) -> bool {
    match ev {
        TransportEvent::Mapping {
            protocol,
            internal_port: got_internal,
            external_port: got_external,
            lifetime_secs,
        } => {
            &&& protocol == Protocol::Tcp
            &&& (!verify || (got_internal == internal_port && got_external == external_port
                && lifetime_secs > 0))
        },
        _ => false,
    }
}

/// The mapping query's whole policy on one event: the retry signal and any
/// unacceptable or non-TCP-mapping response mean another attempt; any other
/// transport error aborts at once; an acceptable TCP mapping response is
/// the granted mapping.
pub open spec fn spec_mapping_decide(
    internal_port: u16,
    external_port: u16,
    verify: bool,
    ev: TransportEvent,
) -> MappingStep {
    match ev {
        TransportEvent::TryAgain => MappingStep::Retry,
        TransportEvent::Fatal => MappingStep::Abort(QueryError::TransportFatal),
        TransportEvent::Gateway { .. } => MappingStep::Retry,
        TransportEvent::Mapping {
            protocol,
            internal_port: got_internal,
            external_port: got_external,
            lifetime_secs,
        } => {
            if spec_mapping_accepts(internal_port, external_port, verify, ev) {
                MappingStep::Granted(PortMapping {
                    protocol: Protocol::Tcp,
                    internal_port: got_internal,
                    external_port: got_external,
                    lifetime_secs,
                })
            } else {
                MappingStep::Retry
            }
        },
    }
}

/// An event is decisive when it ends the mapping query one way or the
/// other instead of costing one more backoff attempt.
pub open spec fn spec_mapping_decisive(
    internal_port: u16,
    external_port: u16,
    verify: bool,
    ev: TransportEvent,
) -> bool {
    !(spec_mapping_decide(internal_port, external_port, verify, ev) is Retry)
}

/// The public-address query's policy on one event: a public-address
/// response answers it, the retry signal costs an attempt, any other
/// transport error is fatal, and a response of the wrong kind is a
/// protocol violation, aborted at once rather than retried.
pub open spec fn spec_gateway_decide(ev: TransportEvent) -> GatewayStep {
    match ev {
        TransportEvent::TryAgain => GatewayStep::Retry,
        TransportEvent::Fatal => GatewayStep::Abort(QueryError::TransportFatal),
        TransportEvent::Gateway { info } => GatewayStep::Granted(info),
        TransportEvent::Mapping { .. } => GatewayStep::Abort(QueryError::UnexpectedResponse),
    }
}

/// An event is decisive for the public-address query when it ends it.
pub open spec fn spec_gateway_decisive(ev: TransportEvent) -> bool {
    !(spec_gateway_decide(ev) is Retry)
}

/// One mapping-query attempt's judgment of the event it observed.
pub fn mapping_decide(
    internal_port: u16,
    external_port: u16,
    verify: bool,
    ev: &TransportEvent,
) -> (r: MappingStep)
    ensures
        r == spec_mapping_decide(internal_port, external_port, verify, *ev),
{
    match *ev {
        TransportEvent::TryAgain => MappingStep::Retry,
        TransportEvent::Fatal => MappingStep::Abort(QueryError::TransportFatal),
        TransportEvent::Gateway { .. } => MappingStep::Retry,
        TransportEvent::Mapping {
            protocol,
            internal_port: got_internal,
            external_port: got_external,
            lifetime_secs,
        } => {
            if protocol == Protocol::Tcp && (!verify || (got_internal == internal_port
                && got_external == external_port && lifetime_secs > 0)) {
                MappingStep::Granted(PortMapping {
                    protocol: Protocol::Tcp,
                    internal_port: got_internal,
                    external_port: got_external,
                    lifetime_secs,
                })
            } else {
                MappingStep::Retry
            }
        },
    }
}

/// One public-address-query attempt's judgment of the event it observed.
pub fn gateway_decide(ev: &TransportEvent) -> (r: GatewayStep)
    ensures
        r == spec_gateway_decide(*ev),
{
    match *ev {
        TransportEvent::TryAgain => GatewayStep::Retry,
        TransportEvent::Fatal => GatewayStep::Abort(QueryError::TransportFatal),
        TransportEvent::Gateway { info } => GatewayStep::Granted(info),
        TransportEvent::Mapping { .. } => GatewayStep::Abort(QueryError::UnexpectedResponse),
    }
}

/// Where a mapping query stands after one attempt.
pub enum MappingProgress {
    /// The query is over with this mapping.
    Granted(PortMapping),
    /// The query failed and must not be retried.
    Failed(QueryError),
    /// Send again, wait for the carried (doubled) timeout, read again.
    Waiting(BackoffState),
}

/// Where a public-address query stands after one attempt.
pub enum GatewayProgress {
    Granted(PublicAddressInfo),
    Failed(QueryError),
    Waiting(BackoffState),
}

/// One whole attempt of the mapping query: judge the observed event, and on
/// a retry either double the timeout or, when the schedule is exhausted,
/// fail with `MappingFailed`.
pub fn mapping_query_step(
    internal_port: u16,
    external_port: u16,
    verify: bool,
    state: &BackoffState,
    ev: &TransportEvent,
) -> (r: MappingProgress)
    requires
        state.wf(),
    ensures
        match spec_mapping_decide(internal_port, external_port, verify, *ev) {
            MappingStep::Granted(m) => r matches MappingProgress::Granted(got) && got == m,
            MappingStep::Abort(err) => r matches MappingProgress::Failed(got) && got == err,
            MappingStep::Retry => {
                if state.attempt@ < LAST_ATTEMPT {
                    r matches MappingProgress::Waiting(s) && s.wf()
                        && s.timeout_ms == 2 * state.timeout_ms
                        && s.attempt@ == state.attempt@ + 1
                } else {
                    r matches MappingProgress::Failed(got) && got == QueryError::MappingFailed
                }
            },
        },
{
    match mapping_decide(internal_port, external_port, verify, ev) {
        MappingStep::Granted(m) => MappingProgress::Granted(m),
        MappingStep::Abort(err) => MappingProgress::Failed(err),
        MappingStep::Retry => match state.advance() {
            Some(next) => MappingProgress::Waiting(next),
            None => MappingProgress::Failed(QueryError::MappingFailed),
        },
    }
}

/// One whole attempt of the public-address query; schedule exhaustion
/// fails with `Timeout`.
pub fn gateway_query_step(state: &BackoffState, ev: &TransportEvent) -> (r: GatewayProgress)
    requires
        state.wf(),
    ensures
        match spec_gateway_decide(*ev) {
            GatewayStep::Granted(info) => r matches GatewayProgress::Granted(got) && got == info,
            GatewayStep::Abort(err) => r matches GatewayProgress::Failed(got) && got == err,
            GatewayStep::Retry => {
                if state.attempt@ < LAST_ATTEMPT {
                    r matches GatewayProgress::Waiting(s) && s.wf()
                        && s.timeout_ms == 2 * state.timeout_ms
                        && s.attempt@ == state.attempt@ + 1
                } else {
                    r matches GatewayProgress::Failed(got) && got == QueryError::Timeout
                }
            },
        },
{
    match gateway_decide(ev) {
        GatewayStep::Granted(info) => GatewayProgress::Granted(info),
        GatewayStep::Abort(err) => GatewayProgress::Failed(err),
        GatewayStep::Retry => match state.advance() {
            Some(next) => GatewayProgress::Waiting(next),
            None => GatewayProgress::Failed(QueryError::Timeout),
        },
    }
}

/// How a whole mapping-query run ended.
#[derive(Clone, Copy, Debug, PartialEq, Eq, Structural)]
pub enum MappingRunResult {
    Granted(PortMapping),
    Failed(QueryError),
    /// The event sequence ended while the query was still waiting.
    OutOfEvents,
}

/// How a whole public-address-query run ended.
#[derive(Clone, Copy, Debug, PartialEq, Eq, Structural)]
pub enum GatewayRunResult {
    Granted(PublicAddressInfo),
    Failed(QueryError),
    OutOfEvents,
}

/// A whole mapping-query run: its outcome, and the timeout each attempt
/// waited for, in order.
#[derive(Debug)]
pub struct MappingRun {
    pub result: MappingRunResult,
    pub timeouts: Vec<u64>,
}

/// A whole public-address-query run.
#[derive(Debug)]
pub struct GatewayRun {
    pub result: GatewayRunResult,
    pub timeouts: Vec<u64>,
}

/// Everything a mapping-query run guarantees. The attempts wait exactly
/// the doubling schedule, never beyond the ceiling; every attempt but the
/// last observed an indecisive event; and the outcome is exactly what the
/// policy says of the first decisive event — a grant or a fatal abort —
/// with `MappingFailed` when the whole schedule was spent on indecisive
/// events, and `OutOfEvents` when the event sequence ran dry first.
pub open spec fn spec_mapping_run(
    internal_port: u16,
    external_port: u16,
    verify: bool,
    events: Seq<TransportEvent>,
    r: MappingRun,
) -> bool {
    let n = r.timeouts@.len() as int;
    &&& n <= MAX_ATTEMPTS
    &&& n <= events.len()
    &&& (forall|j: int| 0 <= j < n ==> r.timeouts@[j] == timeout_at(j as nat))
    &&& (forall|j: int| 0 <= j < n ==> r.timeouts@[j] <= MAX_TIMEOUT_MS)
    &&& (forall|j: int|
        0 <= j < n - 1 ==> !spec_mapping_decisive(internal_port, external_port, verify, events[j]))
    &&& match r.result {
        MappingRunResult::Granted(m) => {
            &&& n >= 1
            &&& spec_mapping_decide(internal_port, external_port, verify, events[n - 1])
                == MappingStep::Granted(m)
        },
        MappingRunResult::Failed(err) => {
            if err == QueryError::MappingFailed {
                &&& n == MAX_ATTEMPTS
                &&& forall|j: int|
                    0 <= j < n ==> !spec_mapping_decisive(
                        internal_port,
                        external_port,
                        verify,
                        events[j],
                    )
            } else {
                &&& n >= 1
                &&& spec_mapping_decide(internal_port, external_port, verify, events[n - 1])
                    == MappingStep::Abort(err)
            }
        },
        MappingRunResult::OutOfEvents => {
            &&& n == events.len()
            &&& n < MAX_ATTEMPTS
            &&& forall|j: int|
                0 <= j < n ==> !spec_mapping_decisive(internal_port, external_port, verify, events[j])
        },
    }
}

/// Everything a public-address-query run guarantees; exhaustion of the
/// schedule surfaces as `Timeout`.
pub open spec fn spec_gateway_run(events: Seq<TransportEvent>, r: GatewayRun) -> bool {
    let n = r.timeouts@.len() as int;
    &&& n <= MAX_ATTEMPTS
    &&& n <= events.len()
    &&& (forall|j: int| 0 <= j < n ==> r.timeouts@[j] == timeout_at(j as nat))
    &&& (forall|j: int| 0 <= j < n ==> r.timeouts@[j] <= MAX_TIMEOUT_MS)
    &&& (forall|j: int| 0 <= j < n - 1 ==> !spec_gateway_decisive(events[j]))
    &&& match r.result {
        GatewayRunResult::Granted(info) => {
            &&& n >= 1
            &&& spec_gateway_decide(events[n - 1]) == GatewayStep::Granted(info)
        },
        GatewayRunResult::Failed(err) => {
            if err == QueryError::Timeout {
                &&& n == MAX_ATTEMPTS
                &&& forall|j: int| 0 <= j < n ==> !spec_gateway_decisive(events[j])
            } else {
                &&& n >= 1
                &&& spec_gateway_decide(events[n - 1]) == GatewayStep::Abort(err)
            }
        },
        GatewayRunResult::OutOfEvents => {
            &&& n == events.len()
            &&& n < MAX_ATTEMPTS
            &&& forall|j: int| 0 <= j < n ==> !spec_gateway_decisive(events[j])
        },
    }
}

/// Runs a whole mapping query over a sequence of observed events: one
/// event per attempt, timeouts doubling from 250 ms, until an event is
/// decisive, the schedule is exhausted, or the events run out.
pub fn run_mapping_query(
    internal_port: u16,
    external_port: u16,
    verify: bool,
    events: &Vec<TransportEvent>,
) -> (r: MappingRun)
    ensures
        spec_mapping_run(internal_port, external_port, verify, events@, r),
{
    let mut timeouts: Vec<u64> = Vec::new();
    let mut state = BackoffState::start();
    let mut idx: usize = 0;
    loop
        invariant
            state.wf(),
            state.attempt@ == idx,
            idx <= events@.len(),
            idx == timeouts@.len(),
            forall|j: int| 0 <= j < idx ==> timeouts@[j] == timeout_at(j as nat),
            forall|j: int| 0 <= j < idx ==> timeouts@[j] <= MAX_TIMEOUT_MS,
            forall|j: int|
                0 <= j < idx ==> !spec_mapping_decisive(internal_port, external_port, verify, events@[j]),
        decreases events@.len() - idx,
    {
        if idx == events.len() {
            return MappingRun { result: MappingRunResult::OutOfEvents, timeouts };
        }
        let ev = events[idx];
        proof {
            lemma_timeout_ceiling(state.attempt@);
        }
        timeouts.push(state.timeout_ms);
        match mapping_decide(internal_port, external_port, verify, &ev) {
            MappingStep::Granted(m) => {
                return MappingRun { result: MappingRunResult::Granted(m), timeouts };
            },
            MappingStep::Abort(err) => {
                return MappingRun { result: MappingRunResult::Failed(err), timeouts };
            },
            MappingStep::Retry => {
                match state.advance() {
                    Some(next) => {
                        state = next;
                        idx = idx + 1;
                    },
                    None => {
                        return MappingRun {
                            result: MappingRunResult::Failed(QueryError::MappingFailed),
                            timeouts,
                        };
                    },
                }
            },
        }
    }
}

/// Runs a fresh-acquisition mapping query: both ports zero so the gateway
/// chooses, and the first well-formed TCP mapping response is accepted.
pub fn run_fresh_query(events: &Vec<TransportEvent>) -> (r: MappingRun)
    ensures
        spec_mapping_run(0, 0, false, events@, r),
{
    run_mapping_query(0, 0, false, events)
}

/// Runs a whole public-address query over a sequence of observed events.
pub fn run_gateway_query(events: &Vec<TransportEvent>) -> (r: GatewayRun)
    ensures
        spec_gateway_run(events@, r),
{
    let mut timeouts: Vec<u64> = Vec::new();
    let mut state = BackoffState::start();
    let mut idx: usize = 0;
    loop
        invariant
            state.wf(),
            state.attempt@ == idx,
            idx <= events@.len(),
            idx == timeouts@.len(),
            forall|j: int| 0 <= j < idx ==> timeouts@[j] == timeout_at(j as nat),
            forall|j: int| 0 <= j < idx ==> timeouts@[j] <= MAX_TIMEOUT_MS,
            forall|j: int| 0 <= j < idx ==> !spec_gateway_decisive(events@[j]),
        decreases events@.len() - idx,
    {
        if idx == events.len() {
            return GatewayRun { result: GatewayRunResult::OutOfEvents, timeouts };
        }
        let ev = events[idx];
        proof {
            lemma_timeout_ceiling(state.attempt@);
        }
        timeouts.push(state.timeout_ms);
        match gateway_decide(&ev) {
            GatewayStep::Granted(info) => {
                return GatewayRun { result: GatewayRunResult::Granted(info), timeouts };
            },
            GatewayStep::Abort(err) => {
                return GatewayRun { result: GatewayRunResult::Failed(err), timeouts };
            },
            GatewayStep::Retry => {
                match state.advance() {
                    Some(next) => {
                        state = next;
                        idx = idx + 1;
                    },
                    None => {
                        return GatewayRun {
                            result: GatewayRunResult::Failed(QueryError::Timeout),
                            timeouts,
                        };
                    },
                }
            },
        }
    }
}

/// Fresh-acquisition mode accepts the first well-formed TCP mapping
/// response whatever ports and lifetime it carries.
pub proof fn lemma_fresh_mode_accepts_any_mapping(
    internal_port: u16,
    external_port: u16,
    got_internal: u16,
    got_external: u16,
    lifetime_secs: u32,
)
    ensures
        spec_mapping_decide(
            internal_port,
            external_port,
            false,
            TransportEvent::Mapping {
                protocol: Protocol::Tcp,
                internal_port: got_internal,
                external_port: got_external,
                lifetime_secs,
            },
        ) == MappingStep::Granted(PortMapping {
            protocol: Protocol::Tcp,
            internal_port: got_internal,
            external_port: got_external,
            lifetime_secs,
        }),
{
}

/// Verify mode rejects a mapping response whose internal port, external
/// port, or lifetime does not match the renewal request: the response
/// costs one more backoff attempt instead of ending the query.
pub proof fn lemma_verify_mode_rejects_mismatch(
    internal_port: u16,
    external_port: u16,
    got_internal: u16,
    got_external: u16,
    lifetime_secs: u32,
)
    requires
        got_internal != internal_port || got_external != external_port || lifetime_secs == 0,
    ensures
        spec_mapping_decide(
            internal_port,
            external_port,
            true,
            TransportEvent::Mapping {
                protocol: Protocol::Tcp,
                internal_port: got_internal,
                external_port: got_external,
                lifetime_secs,
            },
        ) == MappingStep::Retry,
        !spec_mapping_decisive(
            internal_port,
            external_port,
            true,
            TransportEvent::Mapping {
                protocol: Protocol::Tcp,
                internal_port: got_internal,
                external_port: got_external,
                lifetime_secs,
            },
        ),
{
}

/// The transient retry signal never ends a query; any other transport
/// error ends it immediately and fatally. Both query kinds agree on this.
pub proof fn lemma_transport_error_policy(internal_port: u16, external_port: u16, verify: bool)
    ensures
        spec_mapping_decide(internal_port, external_port, verify, TransportEvent::TryAgain)
            == MappingStep::Retry,
        spec_gateway_decide(TransportEvent::TryAgain) == GatewayStep::Retry,
        spec_mapping_decide(internal_port, external_port, verify, TransportEvent::Fatal)
            == MappingStep::Abort(QueryError::TransportFatal),
        spec_gateway_decide(TransportEvent::Fatal) == GatewayStep::Abort(QueryError::TransportFatal),
{
}

} // verus!

