//! The routing decision: where a call goes, or why it goes nowhere.

use crate::extension::Extension;
use crate::number::NationalNumber;
use vstd::prelude::*;

verus! {

/// Why a call has no route.
#[derive(Clone, Copy, Debug, PartialEq, Eq, Structural)]
pub enum FailureReason {
    /// The dialed text holds no digit, or its digits are not dialable.
    InvalidFormat,
    /// An incoming call asks for a number that rings no extension.
    UnknownInboundDestination,
    /// A three-digit short code was dialed that rings no extension.
    ShortCodeNotMapped,
    /// An external call needs a trunk and its caller has none.
    NoTrunkAvailable,
    /// The direction of the call is neither inbound nor outbound.
    UnknownDirection,
}

/// Where a call goes.
#[derive(Debug, PartialEq, Eq)]
pub enum RouteTarget {
    /// To an internal station.
    Internal(Extension),
    /// To a number outside.
    External(NationalNumber),
}

/// Where a call goes, as a mathematical value.
pub enum TargetView {
    /// To the internal station of this number.
    Internal(int),
    /// To the number outside that has these digits.
    External(Seq<char>),
}

impl View for RouteTarget {
    type V = TargetView;

    open spec fn view(&self) -> TargetView {
        match *self {
            RouteTarget::Internal(extension) => TargetView::Internal(extension@),
            RouteTarget::External(number) => TargetView::External(number@),
        }
    }
}

impl Clone for RouteTarget {
    fn clone(&self) -> (copy: RouteTarget)
        ensures
            copy@ == self@,
    {
        match self {
            RouteTarget::Internal(extension) => RouteTarget::Internal(*extension),
            RouteTarget::External(number) => RouteTarget::External(number.clone()),
        }
    }
}

impl DeepView for RouteTarget {
    type V = TargetView;

    open spec fn deep_view(&self) -> TargetView {
        self@
    }
}

/// Whether `target` is an internal station.
pub open spec fn is_internal(target: Option<TargetView>) -> bool {
    target matches Some(TargetView::Internal(_))
}

/// Whether `target` is a number outside.
pub open spec fn is_external(target: Option<TargetView>) -> bool {
    target matches Some(TargetView::External(_))
}

/// A routing decision as a mathematical value.
pub struct OutcomeView {
    /// Whether the call has a route.
    pub success: bool,
    /// Whether the route ends at an internal station.
    pub internal: bool,
    /// Where the call goes; none when it has no route.
    pub target: Option<TargetView>,
    /// The trunk to place an external call on.
    pub trunk: Option<Seq<char>>,
    /// Why the call has no route.
    pub failure: Option<FailureReason>,
}

impl OutcomeView {
    /// Whether the flags, the trunk and the reason agree with the target:
    /// success means that there is a target, internal means that the target
    /// is a station, only an external target has a trunk, and only a call
    /// without a route has a reason.
    pub open spec fn consistent(self) -> bool {
        &&& self.success <==> self.target is Some
        &&& self.internal <==> is_internal(self.target)
        &&& self.trunk is Some ==> is_external(self.target)
        &&& self.failure is Some ==> !self.success
    }
}

/// The decision that a target, a trunk and a reason make. The target
/// decides: beside a station the trunk and the reason are dropped, beside a
/// number outside the reason is dropped, and without a target the trunk is
/// dropped.
pub open spec fn built(
    target: Option<TargetView>,
    trunk: Option<Seq<char>>,
    failure: Option<FailureReason>,
) -> OutcomeView {
    match target {
        Some(TargetView::Internal(_)) => OutcomeView {
            success: true,
            internal: true,
            target,
            trunk: None,
            failure: None,
        },
        Some(TargetView::External(_)) => OutcomeView {
            success: true,
            internal: false,
            target,
            trunk,
            failure: None,
        },
        None => OutcomeView { success: false, internal: false, target: None, trunk: None, failure },
    }
}

/// Whatever it is built from, a decision is consistent.
pub proof fn lemma_built_consistent(
    target: Option<TargetView>,
    trunk: Option<Seq<char>>,
    failure: Option<FailureReason>,
)
    ensures
        built(target, trunk, failure).consistent(),
        built(target, trunk, failure).internal <==> is_internal(target),
        built(target, trunk, failure).success <==> target is Some,
{
}

/// The routing decision for one call. It does not change once it is built.
#[derive(Debug, PartialEq, Eq)]
pub struct RouteOutcome {
    success: bool,
    internal: bool,
    target: Option<RouteTarget>,
    trunk: Option<NationalNumber>,
    failure: Option<FailureReason>,
}

impl View for RouteOutcome {
    type V = OutcomeView;

    closed spec fn view(&self) -> OutcomeView {
        OutcomeView {
            success: self.success,
            internal: self.internal,
            target: self.target.deep_view(),
            trunk: self.trunk.deep_view(),
            failure: self.failure,
        }
    }
}

impl Clone for RouteOutcome {
    fn clone(&self) -> (copy: RouteOutcome)
        ensures
            copy@ == self@,
    {
        proof {
            use_type_invariant(self);
        }
        RouteOutcome {
            success: self.success,
            internal: self.internal,
            target: match &self.target {
                Some(target) => Some(target.clone()),
                None => None,
            },
            trunk: match &self.trunk {
                Some(trunk) => Some(trunk.clone()),
                None => None,
            },
            failure: self.failure,
        }
    }
}

impl RouteOutcome {
    #[verifier::type_invariant]
    spec fn well_formed(&self) -> bool {
        self@.consistent()
    }

    /// Whether the call has a route.
    pub fn success(&self) -> (success: bool)
        ensures
            success == self@.success,
            self@.consistent(),
    {
        proof {
            use_type_invariant(self);
        }
        self.success
    }

    /// Whether the route ends at an internal station.
    pub fn is_internal(&self) -> (internal: bool)
        ensures
            internal == self@.internal,
            self@.consistent(),
    {
        proof {
            use_type_invariant(self);
        }
        self.internal
    }

    /// Where the call goes; `None` when it has no route.
    pub fn target(&self) -> (target: Option<&RouteTarget>)
        ensures
            target.deep_view() == self@.target,
            self@.consistent(),
    {
        proof {
            use_type_invariant(self);
        }
        self.target.as_ref()
    }

    /// The trunk to place the call on; only an external call has one.
    pub fn trunk(&self) -> (trunk: Option<&NationalNumber>)
        ensures
            trunk.deep_view() == self@.trunk,
            self@.consistent(),
    {
        proof {
            use_type_invariant(self);
        }
        self.trunk.as_ref()
    }

    /// Why the call has no route; `None` when it has one.
    pub fn failure(&self) -> (failure: Option<FailureReason>)
        ensures
            failure == self@.failure,
            self@.consistent(),
    {
        proof {
            use_type_invariant(self);
        }
        self.failure
    }
}

/// Builds the decision that a target, a trunk and a reason make, as
/// [`built`] defines it.
pub fn build(
    target: Option<RouteTarget>,
    trunk: Option<NationalNumber>,
    failure: Option<FailureReason>,
) -> (outcome: RouteOutcome)
    ensures
        outcome@ == built(target.deep_view(), trunk.deep_view(), failure),
        outcome@.consistent(),
{
    match target {
        Some(RouteTarget::Internal(extension)) => RouteOutcome {
            success: true,
            internal: true,
            target: Some(RouteTarget::Internal(extension)),
            trunk: None,
            failure: None,
        },
        Some(RouteTarget::External(number)) => RouteOutcome {
            success: true,
            internal: false,
            target: Some(RouteTarget::External(number)),
            trunk,
            failure: None,
        },
        None => RouteOutcome {
            success: false,
            internal: false,
            target: None,
            trunk: None,
            failure,
        },
    }
}

} // verus!
