//! The resolver: from the direction, the number and the caller to the
//! routing decision.

use crate::digits::{digits_of, just_sanitize};
use crate::extension::{extension_value, is_extension_text, Extension};
use crate::number::{normalized, sanitize_and_normalize, NationalNumber};
use crate::outcome::{
    build, built, is_external, FailureReason, OutcomeView, RouteOutcome, RouteTarget, TargetView,
};
use crate::request::{AgiVars, AgiVarsView, Mode};
use crate::tables::{
    lemma_standard_trunks_ring_back, standard_tables, standard_trunks, RoutingTables, TablesView,
};
use vstd::prelude::*;

verus! {

/// What becomes of an external call whose caller has no trunk.
#[derive(Clone, Copy, Debug, PartialEq, Eq, Structural)]
pub enum TrunkPolicy {
    /// The call is routed without a trunk.
    Optional,
    /// The call has no route.
    Required,
}

/// The dial plan: the routing tables and the one policy on trunks. It is
/// made once and handed to every resolution.
pub struct DialPlan {
    /// The routing tables.
    pub tables: RoutingTables,
    /// What becomes of an external call whose caller has no trunk.
    pub trunk_policy: TrunkPolicy,
}

/// The dial plan as a mathematical value.
pub struct DialPlanView {
    /// The routing tables.
    pub tables: TablesView,
    /// What becomes of an external call whose caller has no trunk.
    pub trunk_policy: TrunkPolicy,
}

impl View for DialPlan {
    type V = DialPlanView;

    open spec fn view(&self) -> DialPlanView {
        DialPlanView { tables: self.tables@, trunk_policy: self.trunk_policy }
    }
}

/// The decision that a call without a route gets.
pub open spec fn refused(reason: FailureReason) -> OutcomeView {
    built(None, None, Some(reason))
}

/// The trunk of the caller, if there is a caller and the table holds it.
pub open spec fn caller_trunk(tables: TablesView, caller: Option<int>) -> Option<Seq<char>> {
    match caller {
        Some(extension) => tables.lookup_trunk(extension),
        None => None,
    }
}

/// The routing decision for a number.
///
/// A number that the table holds rings its extension, whatever the
/// direction. Any other number is refused when it comes from outside, and
/// when it is a three-digit short code; what is left goes outside, on the
/// caller's trunk. Where the caller has no trunk, the policy decides
/// between a route without a trunk and no route.
pub open spec fn resolved(
    plan: DialPlanView,
    mode: Mode,
    number: Seq<char>,
    caller: Option<int>,
) -> OutcomeView {
    match plan.tables.lookup_extension(number) {
        Some(extension) => built(Some(TargetView::Internal(extension)), None, None),
        None => match mode {
            Mode::Inbound => refused(FailureReason::UnknownInboundDestination),
            Mode::Outbound => {
                let trunk = caller_trunk(plan.tables, caller);
                if number.len() == 3 {
                    refused(FailureReason::ShortCodeNotMapped)
                } else if trunk is None && plan.trunk_policy == TrunkPolicy::Required {
                    refused(FailureReason::NoTrunkAvailable)
                } else {
                    built(Some(TargetView::External(number)), trunk, None)
                }
            },
        },
    }
}

/// The extension that the caller's text names: its digits, if they are
/// exactly three.
pub open spec fn caller_extension(caller: Seq<char>) -> Option<int> {
    if is_extension_text(digits_of(caller)) {
        Some(extension_value(digits_of(caller)))
    } else {
        None
    }
}

/// The routing decision for an outbound call, from the dialed text and the
/// caller's text as they came.
pub open spec fn outbound_outcome(
    plan: DialPlanView,
    dialed: Seq<char>,
    caller: Seq<char>,
) -> OutcomeView {
    match normalized(digits_of(dialed)) {
        Some(number) => resolved(plan, Mode::Outbound, number, caller_extension(caller)),
        None => refused(FailureReason::InvalidFormat),
    }
}

/// The routing decision for an inbound call, from the dialed text as it
/// came: its digits are looked up as they are.
pub open spec fn inbound_outcome(plan: DialPlanView, dialed: Seq<char>) -> OutcomeView {
    if digits_of(dialed).len() == 0 {
        refused(FailureReason::InvalidFormat)
    } else {
        resolved(plan, Mode::Inbound, digits_of(dialed), None)
    }
}

/// The routing decision for a call.
pub open spec fn lookup_outcome(plan: DialPlanView, vars: AgiVarsView) -> OutcomeView {
    match vars.mode {
        Some(Mode::Outbound) => outbound_outcome(plan, vars.dialed, vars.caller),
        Some(Mode::Inbound) => inbound_outcome(plan, vars.dialed),
        None => refused(FailureReason::UnknownDirection),
    }
}

/// Whatever the plan, the direction, the number and the caller, the
/// decision is consistent: the flags, the trunk and the reason agree with
/// the target. A call without a route has a reason, and a call from outside
/// never goes outside again.
pub proof fn lemma_resolved_consistent(
    plan: DialPlanView,
    mode: Mode,
    number: Seq<char>,
    caller: Option<int>,
)
    ensures
        resolved(plan, mode, number, caller).consistent(),
        !resolved(plan, mode, number, caller).success ==> resolved(
            plan,
            mode,
            number,
            caller,
        ).failure is Some,
        mode == Mode::Inbound ==> !is_external(resolved(plan, mode, number, caller).target),
{
}

/// Round trip through the trunk table. Let the tables give `extension` the
/// trunk `trunk`, and let the number table give `trunk` no other extension.
///
/// An outbound call to `trunk` then rings `extension` where the number
/// table holds `trunk`, and where it has a route at all, that route ends at
/// `extension` or at `trunk`. An outbound call from `extension`, to whatever
/// number, is never refused for want of a trunk; it carries `trunk` when it
/// goes outside, and no trunk otherwise.
pub proof fn lemma_trunk_round_trip(
    plan: DialPlanView,
    extension: int,
    trunk: Seq<char>,
    caller: Option<int>,
    number: Seq<char>,
)
    requires
        plan.tables.lookup_trunk(extension) == Some(trunk),
        plan.tables.lookup_extension(trunk) is None || plan.tables.lookup_extension(trunk) == Some(
            extension,
        ),
    ensures
        ({
            let to_trunk = resolved(plan, Mode::Outbound, trunk, caller);
            let from_extension = resolved(plan, Mode::Outbound, number, Some(extension));
            &&& plan.tables.lookup_extension(trunk) == Some(extension) ==> to_trunk == built(
                Some(TargetView::Internal(extension)),
                None,
                None,
            )
            &&& to_trunk.success ==> to_trunk.target == Some(TargetView::Internal(extension))
                || to_trunk.target == Some(TargetView::External(trunk))
            &&& from_extension.failure != Some(FailureReason::NoTrunkAvailable)
            &&& is_external(from_extension.target) ==> from_extension.trunk == Some(trunk)
            &&& !is_external(from_extension.target) ==> from_extension.trunk is None
        }),
{
}

/// Round trip through the standard dial plan. Under either policy, an
/// outbound call to the trunk of an extension rings that extension, and an
/// outbound call from that extension carries that trunk when it goes
/// outside.
pub proof fn lemma_standard_round_trip(
    policy: TrunkPolicy,
    i: int,
    caller: Option<int>,
    number: Seq<char>,
)
    requires
        0 <= i < standard_trunks().len(),
    ensures
        ({
            let plan = DialPlanView { tables: standard_tables(), trunk_policy: policy };
            let extension = extension_value(standard_trunks()[i].0);
            let trunk = standard_trunks()[i].1;
            let from_extension = resolved(plan, Mode::Outbound, number, Some(extension));
            &&& resolved(plan, Mode::Outbound, trunk, caller) == built(
                Some(TargetView::Internal(extension)),
                None,
                None,
            )
            &&& from_extension.failure != Some(FailureReason::NoTrunkAvailable)
            &&& is_external(from_extension.target) ==> from_extension.trunk == Some(trunk)
        }),
{
    lemma_standard_trunks_ring_back(i);
    let plan = DialPlanView { tables: standard_tables(), trunk_policy: policy };
    lemma_trunk_round_trip(
        plan,
        extension_value(standard_trunks()[i].0),
        standard_trunks()[i].1,
        caller,
        number,
    );
}

impl DialPlan {
    /// The standard dial plan: the standard tables, and external calls go
    /// out with or without a trunk.
    pub fn standard() -> (plan: DialPlan)
        ensures
            plan@.tables == standard_tables(),
            plan@.trunk_policy == TrunkPolicy::Optional,
    {
        DialPlan { tables: RoutingTables::standard(), trunk_policy: TrunkPolicy::Optional }
    }

    /// Decides the route of a call to `number`, as [`resolved`] defines it.
    pub fn resolve(&self, mode: Mode, number: NationalNumber, caller: Option<Extension>) -> (outcome:
        RouteOutcome)
        ensures
            outcome@ == resolved(self@, mode, number@, caller.deep_view()),
    {
        match self.tables.lookup_extension(&number) {
            Some(extension) => build(Some(RouteTarget::Internal(extension)), None, None),
            None => match mode {
                Mode::Inbound => build(None, None, Some(FailureReason::UnknownInboundDestination)),
                Mode::Outbound => {
                    if number.is_short_code() {
                        return build(None, None, Some(FailureReason::ShortCodeNotMapped));
                    }
                    let trunk = match caller {
                        Some(extension) => self.tables.lookup_trunk(extension),
                        None => None,
                    };
                    match (&trunk, self.trunk_policy) {
                        (None, TrunkPolicy::Required) => build(
                            None,
                            None,
                            Some(FailureReason::NoTrunkAvailable),
                        ),
                        _ => build(Some(RouteTarget::External(number)), trunk, None),
                    }
                },
            },
        }
    }
}

/// Reads the caller's extension from the text that came for it.
pub fn parse_caller(caller: &str) -> (extension: Option<Extension>)
    ensures
        extension.deep_view() == caller_extension(caller@),
{
    match just_sanitize(caller) {
        Some(digits) => Extension::from_digits(&digits),
        None => None,
    }
}

/// Decides the route of an outbound call from the texts that came for it,
/// as [`outbound_outcome`] defines it. The direction that came is not read.
pub fn handle_outbound(plan: &DialPlan, vars: &AgiVars) -> (outcome: RouteOutcome)
    ensures
        outcome@ == outbound_outcome(plan@, vars@.dialed, vars@.caller),
{
    match sanitize_and_normalize(vars.dialed.as_str()) {
        Some(number) => plan.resolve(
            Mode::Outbound,
            number,
            parse_caller(vars.caller.as_str()),
        ),
        None => build(None, None, Some(FailureReason::InvalidFormat)),
    }
}

/// Decides the route of a call, as [`lookup_outcome`] defines it.
pub fn run_lookup(plan: &DialPlan, vars: &AgiVars) -> (outcome: RouteOutcome)
    ensures
        outcome@ == lookup_outcome(plan@, vars@),
{
    match vars.mode {
        Some(Mode::Outbound) => handle_outbound(plan, vars),
        Some(Mode::Inbound) => {
            match just_sanitize(vars.dialed.as_str()) {
                Some(digits) => {
                    proof {
                        plan.tables.lemma_well_formed();
                    }
                    match NationalNumber::from_canonical(&digits) {
                        Some(number) => plan.resolve(Mode::Inbound, number, None),
                        None => build(None, None, Some(FailureReason::UnknownInboundDestination)),
                    }
                },
                None => build(None, None, Some(FailureReason::InvalidFormat)),
            }
        },
        None => build(None, None, Some(FailureReason::UnknownDirection)),
    }
}

} // verus!
