use portkeeper::protocol::{PortMapping, Protocol, QueryError, TransportEvent};
use portkeeper::query::MappingRunResult;
use portkeeper::scheduler::{
    after_fallback, after_renewal, port_change_notification, renewal_cycle, renewal_sleep_ms,
    CycleOutcome, FallbackDecision, RenewalDecision,
};

fn held_mapping() -> PortMapping {
    PortMapping {
        protocol: Protocol::Tcp,
        internal_port: 5000,
        external_port: 40000,
        lifetime_secs: 360,
    }
}

fn tcp_mapping(internal_port: u16, external_port: u16, lifetime_secs: u32) -> TransportEvent {
    TransportEvent::Mapping {
        protocol: Protocol::Tcp,
        internal_port,
        external_port,
        lifetime_secs,
    }
}

#[test]
fn scheduler_sleeps_for_exactly_half_the_lifetime() {
    assert_eq!(renewal_sleep_ms(&held_mapping()), 180_000);
    let short = PortMapping { lifetime_secs: 1, ..held_mapping() };
    assert_eq!(renewal_sleep_ms(&short), 500);
    let odd = PortMapping { lifetime_secs: 7, ..held_mapping() };
    assert_eq!(renewal_sleep_ms(&odd), 3500);
}

#[test]
fn unchanged_port_owes_no_notification() {
    assert_eq!(port_change_notification(40000, 40000), None);
    let renewed = held_mapping();
    match after_renewal(&held_mapping(), &Ok(renewed)) {
        RenewalDecision::Hold { mapping, notify } => {
            assert_eq!(mapping, renewed);
            assert_eq!(notify, None);
        }
        RenewalDecision::TryFresh => panic!("a granted renewal must be held"),
    }
}

#[test]
fn changed_port_owes_exactly_one_notification_with_the_new_port() {
    assert_eq!(port_change_notification(40000, 40005), Some(40005));
    let renewed = PortMapping { external_port: 40005, ..held_mapping() };
    match after_renewal(&held_mapping(), &Ok(renewed)) {
        RenewalDecision::Hold { mapping, notify } => {
            assert_eq!(mapping, renewed);
            assert_eq!(notify, Some(40005));
        }
        RenewalDecision::TryFresh => panic!("a granted renewal must be held"),
    }
}

#[test]
fn failed_renewal_falls_back_to_fresh_acquisition() {
    match after_renewal(&held_mapping(), &Err(QueryError::MappingFailed)) {
        RenewalDecision::TryFresh => {}
        RenewalDecision::Hold { .. } => panic!("a failed renewal must fall back"),
    }
}

#[test]
fn failed_fallback_is_fatal() {
    match after_fallback(&held_mapping(), &Err(QueryError::MappingFailed)) {
        FallbackDecision::Fatal(err) => assert_eq!(err, QueryError::MappingFailed),
        FallbackDecision::Hold { .. } => panic!("a failed fallback must be fatal"),
    }
}

#[test]
fn fallback_grant_is_held_and_notified_like_a_renewal() {
    let fresh = PortMapping { external_port: 40002, ..held_mapping() };
    match after_fallback(&held_mapping(), &Ok(fresh)) {
        FallbackDecision::Hold { mapping, notify } => {
            assert_eq!(mapping, fresh);
            assert_eq!(notify, Some(40002));
        }
        FallbackDecision::Fatal(_) => panic!("a granted fallback must be held"),
    }
}

#[test]
fn mismatched_renewal_exhausts_then_fresh_acquisition_takes_over() {
    let renewal_events = vec![tcp_mapping(5000, 40001, 360); 9];
    let fallback_events = vec![tcp_mapping(5000, 40002, 360)];
    let cycle = renewal_cycle(&held_mapping(), &renewal_events, &fallback_events);
    assert_eq!(cycle.renewal.result, MappingRunResult::Failed(QueryError::MappingFailed));
    assert_eq!(cycle.renewal.timeouts.len(), 9);
    let fallback = cycle.fallback.expect("the fallback query must have run");
    assert_eq!(fallback.timeouts, vec![250]);
    match cycle.outcome {
        CycleOutcome::Hold { mapping, notify } => {
            assert_eq!(mapping.external_port, 40002);
            assert_eq!(notify, Some(40002));
        }
        _ => panic!("the fallback grant must be held"),
    }
}

#[test]
fn renewal_cycle_with_matching_grant_skips_fallback_and_stays_quiet() {
    let renewal_events = vec![tcp_mapping(5000, 40000, 360)];
    let cycle = renewal_cycle(&held_mapping(), &renewal_events, &Vec::new());
    assert!(cycle.fallback.is_none());
    match cycle.outcome {
        CycleOutcome::Hold { mapping, notify } => {
            assert_eq!(mapping, held_mapping());
            assert_eq!(notify, None);
        }
        _ => panic!("a granted renewal must be held"),
    }
}

#[test]
fn fallback_port_change_notifies_the_new_port_once() {
    let renewal_events = vec![TransportEvent::Fatal];
    let fallback_events = vec![tcp_mapping(5000, 40005, 360)];
    let cycle = renewal_cycle(&held_mapping(), &renewal_events, &fallback_events);
    assert_eq!(cycle.renewal.result, MappingRunResult::Failed(QueryError::TransportFatal));
    match cycle.outcome {
        CycleOutcome::Hold { mapping, notify } => {
            assert_eq!(mapping.external_port, 40005);
            assert_eq!(notify, Some(40005));
        }
        _ => panic!("the fallback grant must be held"),
    }
}

#[test]
fn cycle_with_both_queries_failing_is_fatal() {
    let renewal_events = vec![TransportEvent::TryAgain; 9];
    let fallback_events = vec![TransportEvent::Fatal];
    let cycle = renewal_cycle(&held_mapping(), &renewal_events, &fallback_events);
    assert_eq!(cycle.renewal.result, MappingRunResult::Failed(QueryError::MappingFailed));
    match cycle.outcome {
        CycleOutcome::Fatal(err) => assert_eq!(err, QueryError::TransportFatal),
        _ => panic!("a failed fallback must be fatal"),
    }
}
