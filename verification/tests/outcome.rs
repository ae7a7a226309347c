use dialplan::extension::Extension;
use dialplan::number::NationalNumber;
use dialplan::outcome::{build, FailureReason, RouteTarget};

const REASONS: [FailureReason; 5] = [
    FailureReason::InvalidFormat,
    FailureReason::UnknownInboundDestination,
    FailureReason::ShortCodeNotMapped,
    FailureReason::NoTrunkAvailable,
    FailureReason::UnknownDirection,
];

fn targets() -> Vec<Option<RouteTarget>> {
    vec![
        None,
        Some(RouteTarget::Internal(Extension::new(0).unwrap())),
        Some(RouteTarget::Internal(Extension::new(502).unwrap())),
        Some(RouteTarget::External(NationalNumber::from_text("74951234567").unwrap())),
        Some(RouteTarget::External(NationalNumber::from_text("911").unwrap())),
    ]
}

fn trunks() -> Vec<Option<NationalNumber>> {
    vec![None, NationalNumber::from_text("79235253998"), NationalNumber::from_text("104")]
}

fn failures() -> Vec<Option<FailureReason>> {
    let mut all = vec![None];
    all.extend(REASONS.iter().map(|r| Some(*r)));
    all
}

#[test]
fn flags_follow_the_target() {
    for (t, target) in targets().into_iter().enumerate() {
        for (k, _) in trunks().into_iter().enumerate() {
            for failure in failures() {
                let outcome = build(targets().remove(t), trunks().remove(k), failure);
                assert_eq!(outcome.success(), target.is_some());
                assert_eq!(outcome.is_internal(), matches!(target, Some(RouteTarget::Internal(_))));
                assert_eq!(outcome.target(), target.as_ref());
            }
        }
    }
}

#[test]
fn internal_is_true_exactly_for_an_internal_target() {
    for (t, _) in targets().into_iter().enumerate() {
        for (k, _) in trunks().into_iter().enumerate() {
            for failure in failures() {
                let outcome = build(targets().remove(t), trunks().remove(k), failure);
                let is_station = matches!(outcome.target(), Some(RouteTarget::Internal(_)));
                assert_eq!(outcome.is_internal(), is_station);
                if outcome.is_internal() {
                    assert!(outcome.success());
                }
            }
        }
    }
}

#[test]
fn only_an_external_target_keeps_its_trunk() {
    for (t, target) in targets().into_iter().enumerate() {
        for (k, trunk) in trunks().into_iter().enumerate() {
            for failure in failures() {
                let outcome = build(targets().remove(t), trunks().remove(k), failure);
                if matches!(target, Some(RouteTarget::External(_))) {
                    assert_eq!(outcome.trunk(), trunk.as_ref());
                } else {
                    assert_eq!(outcome.trunk(), None);
                }
            }
        }
    }
}

#[test]
fn only_a_call_without_route_keeps_its_reason() {
    for (t, target) in targets().into_iter().enumerate() {
        for (k, _) in trunks().into_iter().enumerate() {
            for failure in failures() {
                let outcome = build(targets().remove(t), trunks().remove(k), failure);
                if target.is_none() {
                    assert_eq!(outcome.failure(), failure);
                } else {
                    assert_eq!(outcome.failure(), None);
                }
            }
        }
    }
}

#[test]
fn a_built_outcome_is_exactly_what_was_asked() {
    let outcome = build(
        Some(RouteTarget::External(NationalNumber::from_text("74951234567").unwrap())),
        NationalNumber::from_text("79235253998"),
        None,
    );
    assert!(outcome.success());
    assert!(!outcome.is_internal());
    assert_eq!(
        outcome.target(),
        Some(&RouteTarget::External(NationalNumber::from_text("74951234567").unwrap()))
    );
    assert_eq!(outcome.trunk().map(|t| t.as_str()), Some("79235253998"));
    assert_eq!(outcome.failure(), None);

    let outcome = build(None, None, Some(FailureReason::ShortCodeNotMapped));
    assert!(!outcome.success());
    assert!(!outcome.is_internal());
    assert_eq!(outcome.target(), None);
    assert_eq!(outcome.trunk(), None);
    assert_eq!(outcome.failure(), Some(FailureReason::ShortCodeNotMapped));

    let outcome = build(None, None, None);
    assert!(!outcome.success());
    assert_eq!(outcome.failure(), None);
}
