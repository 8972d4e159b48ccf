//! The renewal scheduler: the top-level policy that keeps one mapping
//! alive. It holds exactly one live mapping at a time, sleeps for half of
//! its granted lifetime, renews it in verify mode, falls back to fresh
//! acquisition when renewal fails, and owes the downstream consumer a
//! notification exactly when the externally reachable port changed. A
//! failed fallback is fatal: the process has no further recourse.

use vstd::prelude::*;

use crate::protocol::{PortMapping, QueryError, TransportEvent};
use crate::query::{MappingRun, MappingRunResult, run_fresh_query, run_mapping_query};

verus! {

/// The notification owed after a mapping with external port
/// `new_external` replaces one with `previous_external`: the new port when
/// it differs, nothing when it is unchanged.
pub open spec fn spec_port_change(previous_external: u16, new_external: u16) -> Option<u16> {
    if new_external != previous_external {
        Some(new_external)
    } else {
        None
    }
}

/// What the scheduler does with the outcome of a renewal query.
pub enum RenewalDecision {
    /// Hold this mapping from now on and, when a port is carried, notify
    /// the downstream consumer of it.
    Hold { mapping: PortMapping, notify: Option<u16> },
    /// The renewal failed: fall back to a fresh-acquisition query.
    TryFresh,
}

/// What the scheduler does with the outcome of the fallback query.
pub enum FallbackDecision {
    /// Hold this mapping from now on and, when a port is carried, notify
    /// the downstream consumer of it.
    Hold { mapping: PortMapping, notify: Option<u16> },
    /// Fresh acquisition failed too: fatal, the process stops.
    Fatal(QueryError),
}

/// The scheduler's policy on a finished renewal query: a granted mapping
/// is held (with the port-change notification it owes, judged against the
/// previously held mapping); any failure means falling back to fresh
/// acquisition.
pub open spec fn spec_after_renewal(
    current: PortMapping,
    renewal: Result<PortMapping, QueryError>,
) -> RenewalDecision {
    match renewal {
        Ok(m) => RenewalDecision::Hold {
            mapping: m,
            notify: spec_port_change(current.external_port, m.external_port),
        },
        Err(_) => RenewalDecision::TryFresh,
    }
}

/// The scheduler's policy on a finished fallback query: a granted mapping
/// is held as after a renewal; a failure is fatal.
pub open spec fn spec_after_fallback(
    current: PortMapping,
    fresh: Result<PortMapping, QueryError>,
) -> FallbackDecision {
    match fresh {
        Ok(m) => FallbackDecision::Hold {
            mapping: m,
            notify: spec_port_change(current.external_port, m.external_port),
        },
        Err(err) => FallbackDecision::Fatal(err),
    }
}

/// Milliseconds the scheduler sleeps while holding `mapping` before it
/// attempts renewal: exactly half the granted lifetime, so that one missed
/// renewal cycle still fits within the grant.
pub fn renewal_sleep_ms(mapping: &PortMapping) -> (r: u64)
    ensures
        2 * r == mapping.lifetime_secs as int * 1000,
{
    (mapping.lifetime_secs as u64) * 500
}

/// The downstream notification owed after a mapping change.
pub fn port_change_notification(previous_external: u16, new_external: u16) -> (r: Option<u16>)
    ensures
        r == spec_port_change(previous_external, new_external),
{
    if new_external != previous_external {
        Some(new_external)
    } else {
        None
    }
}

/// Applies the scheduler's renewal policy to a finished renewal query.
pub fn after_renewal(current: &PortMapping, renewal: &Result<PortMapping, QueryError>) -> (r:
    RenewalDecision)
    ensures
        r == spec_after_renewal(*current, *renewal),
{
    match *renewal {
        Ok(m) => RenewalDecision::Hold {
            mapping: m,
            notify: port_change_notification(current.external_port, m.external_port),
        },
        Err(_) => RenewalDecision::TryFresh,
    }
}

/// Applies the scheduler's fallback policy to a finished fresh-acquisition
/// query.
pub fn after_fallback(current: &PortMapping, fresh: &Result<PortMapping, QueryError>) -> (r:
    FallbackDecision)
    ensures
        r == spec_after_fallback(*current, *fresh),
{
    match *fresh {
        Ok(m) => FallbackDecision::Hold {
            mapping: m,
            notify: port_change_notification(current.external_port, m.external_port),
        },
        Err(err) => FallbackDecision::Fatal(err),
    }
}

/// How one whole renewal cycle of the scheduler ended.
pub enum CycleOutcome {
    /// The mapping held from now on, with the notification it owes.
    Hold { mapping: PortMapping, notify: Option<u16> },
    /// Renewal and fallback both failed: the process stops.
    Fatal(QueryError),
    /// An event sequence ended while a query was still waiting.
    OutOfEvents,
}

/// One whole renewal cycle over pre-recorded events: the runs it made and
/// what the scheduler concluded.
pub struct CycleRun {
    /// The renewal query's run, in verify mode against the held mapping.
    pub renewal: MappingRun,
    /// The fallback fresh-acquisition run, made only when renewal failed.
    pub fallback: Option<MappingRun>,
    pub outcome: CycleOutcome,
}

/// One full renewal cycle of the scheduler, driven by pre-recorded event
/// sequences: first the renewal query in verify mode against the held
/// mapping's ports, then — only if that did not grant a mapping — the
/// fresh-acquisition fallback. The outcome carries the mapping to hold
/// next and the port-change notification owed, or the fatal failure when
/// the fallback failed too.
pub fn renewal_cycle(
    current: &PortMapping,
    renewal_events: &Vec<TransportEvent>,
    fallback_events: &Vec<TransportEvent>,
) -> (r: CycleRun)
    ensures
        crate::query::spec_mapping_run(
            current.internal_port,
            current.external_port,
            true,
            renewal_events@,
            r.renewal,
        ),
        match r.renewal.result {
            MappingRunResult::Granted(m) => {
                &&& r.fallback is None
                &&& r.outcome == CycleOutcome::Hold {
                    mapping: m,
                    notify: spec_port_change(current.external_port, m.external_port),
                }
            },
            _ => {
                r.fallback matches Some(fb) && {
                    &&& crate::query::spec_mapping_run(0, 0, false, fallback_events@, fb)
                    &&& match fb.result {
                        MappingRunResult::Granted(m) => r.outcome == CycleOutcome::Hold {
                            mapping: m,
                            notify: spec_port_change(current.external_port, m.external_port),
                        },
                        MappingRunResult::Failed(err) => r.outcome == CycleOutcome::Fatal(err),
                        MappingRunResult::OutOfEvents => r.outcome == CycleOutcome::OutOfEvents,
                    }
                }
            },
        },
{
    let renewal = run_mapping_query(
        current.internal_port,
        current.external_port,
        true,
        renewal_events,
    );
    match renewal.result {
        MappingRunResult::Granted(m) => {
            let notify = port_change_notification(current.external_port, m.external_port);
            CycleRun {
                renewal,
                fallback: None,
                outcome: CycleOutcome::Hold { mapping: m, notify },
            }
        },
        _ => {
            let fb = run_fresh_query(fallback_events);
            let outcome = match fb.result {
                MappingRunResult::Granted(m) => {
                    let notify = port_change_notification(current.external_port, m.external_port);
                    CycleOutcome::Hold { mapping: m, notify }
                },
                MappingRunResult::Failed(err) => CycleOutcome::Fatal(err),
                MappingRunResult::OutOfEvents => CycleOutcome::OutOfEvents,
            };
            CycleRun { renewal, fallback: Some(fb), outcome }
        },
    }
}

/// A renewal that returns the held external port owes no downstream
/// notification; one that returns a different port owes exactly one
/// notification carrying the new port. Renewals and fallback fresh
/// acquisitions follow the same rule.
pub proof fn lemma_notification_policy(current: PortMapping, granted: PortMapping)
    ensures
        granted.external_port == current.external_port ==> spec_after_renewal(current, Ok(granted))
            == (RenewalDecision::Hold { mapping: granted, notify: None }),
        granted.external_port == current.external_port ==> spec_after_fallback(
            current,
            Ok(granted),
        ) == (FallbackDecision::Hold { mapping: granted, notify: None }),
        granted.external_port != current.external_port ==> spec_after_renewal(current, Ok(granted))
            == (RenewalDecision::Hold {
            mapping: granted,
            notify: Some(granted.external_port),
        }),
        granted.external_port != current.external_port ==> spec_after_fallback(
            current,
            Ok(granted),
        ) == (FallbackDecision::Hold {
            mapping: granted,
            notify: Some(granted.external_port),
        }),
{
}

} // verus!
