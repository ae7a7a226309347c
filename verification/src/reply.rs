//! What is said back to the telephony control process: the routing decision
//! as a handful of named variables, each set by one command line.

use crate::extension::extension_text;
use crate::outcome::{FailureReason, OutcomeView, RouteOutcome, RouteTarget, TargetView};
use vstd::prelude::*;
use vstd::string::StringExecFns;

verus! {

/// The name of a reason, as it is reported.
pub open spec fn reason_text(reason: FailureReason) -> Seq<char> {
    match reason {
        FailureReason::InvalidFormat => "invalid_format"@,
        FailureReason::UnknownInboundDestination => "unknown_inbound_destination"@,
        FailureReason::ShortCodeNotMapped => "short_code_not_mapped"@,
        FailureReason::NoTrunkAvailable => "no_trunk_available"@,
        FailureReason::UnknownDirection => "unknown_direction"@,
    }
}

/// The name of a reason, as it is reported.
pub fn reason_tag(reason: FailureReason) -> (tag: &'static str)
    ensures
        tag@ == reason_text(reason),
{
    match reason {
        FailureReason::InvalidFormat => "invalid_format",
        FailureReason::UnknownInboundDestination => "unknown_inbound_destination",
        FailureReason::ShortCodeNotMapped => "short_code_not_mapped",
        FailureReason::NoTrunkAvailable => "no_trunk_available",
        FailureReason::UnknownDirection => "unknown_direction",
    }
}

/// A routing decision as it is reported: in text.
#[derive(Debug, PartialEq, Eq)]
pub enum LookupStatus {
    /// The call goes to the station that these digits name.
    Internal(String),
    /// The call goes outside, to the number that these digits name.
    External(String),
    /// The call has no route, for the reason that this text names.
    Failure(&'static str),
}

/// A reported decision as a mathematical value.
pub enum StatusView {
    /// The call goes to the station that these digits name.
    Internal(Seq<char>),
    /// The call goes outside, to the number that these digits name.
    External(Seq<char>),
    /// The call has no route, for the reason that this text names.
    Failure(Seq<char>),
}

impl View for LookupStatus {
    type V = StatusView;

    open spec fn view(&self) -> StatusView {
        match *self {
            LookupStatus::Internal(target) => StatusView::Internal(target@),
            LookupStatus::External(target) => StatusView::External(target@),
            LookupStatus::Failure(reason) => StatusView::Failure(reason@),
        }
    }
}

impl Clone for LookupStatus {
    fn clone(&self) -> (copy: LookupStatus)
        ensures
            copy@ == self@,
    {
        match self {
            LookupStatus::Internal(target) => LookupStatus::Internal(target.clone()),
            LookupStatus::External(target) => LookupStatus::External(target.clone()),
            LookupStatus::Failure(reason) => LookupStatus::Failure(*reason),
        }
    }
}

/// How a decision is reported: a station by its three digits, a number
/// outside by its digits, a refusal by the name of its reason, or by an
/// empty text where it has none.
pub open spec fn status_of(outcome: OutcomeView) -> StatusView {
    match outcome.target {
        Some(TargetView::Internal(extension)) => StatusView::Internal(extension_text(extension)),
        Some(TargetView::External(number)) => StatusView::External(number),
        None => match outcome.failure {
            Some(reason) => StatusView::Failure(reason_text(reason)),
            None => StatusView::Failure(Seq::empty()),
        },
    }
}

/// The four values that report a decision: whether the call has a route,
/// whether it ends at a station, the target, and the reason.
pub open spec fn status_parts(status: StatusView) -> (Seq<char>, Seq<char>, Seq<char>, Seq<char>) {
    match status {
        StatusView::Internal(target) => ("TRUE"@, "TRUE"@, target, Seq::empty()),
        StatusView::External(target) => ("TRUE"@, "FALSE"@, target, Seq::empty()),
        StatusView::Failure(reason) => ("FALSE"@, "FALSE"@, Seq::empty(), reason),
    }
}

impl LookupStatus {
    /// Puts a decision into the text that reports it, as [`status_of`]
    /// defines it.
    pub fn of(outcome: &RouteOutcome) -> (status: LookupStatus)
        ensures
            status@ == status_of(outcome@),
    {
        match outcome.target() {
            Some(RouteTarget::Internal(extension)) => LookupStatus::Internal(extension.text()),
            Some(RouteTarget::External(number)) => LookupStatus::External(
                number.as_str().to_owned(),
            ),
            None => match outcome.failure() {
                Some(reason) => LookupStatus::Failure(reason_tag(reason)),
                None => {
                    proof {
                        reveal_strlit("");
                    }
                    assert(""@ =~= Seq::<char>::empty());
                    LookupStatus::Failure("")
                },
            },
        }
    }

    /// The four values that report the decision, as [`status_parts`]
    /// defines them.
    pub fn into_parts(self) -> (parts: (&'static str, &'static str, String, &'static str))
        ensures
            (parts.0@, parts.1@, parts.2@, parts.3@) == status_parts(self@),
    {
        proof {
            reveal_strlit("");
        }
        match self {
            LookupStatus::Internal(target) => ("TRUE", "TRUE", target, ""),
            LookupStatus::External(target) => ("TRUE", "FALSE", target, ""),
            LookupStatus::Failure(reason) => ("FALSE", "FALSE", String::new(), reason),
        }
    }
}

/// The command line that sets the variable `name` to `value`.
pub open spec fn set_var_line(name: Seq<char>, value: Seq<char>) -> Seq<char> {
    "SET VARIABLE "@ + name + " \""@ + value + "\"\n"@
}

/// The command line that sets the variable `name` to `value`. Neither is
/// changed on the way: a quote inside `value` stays as it is.
pub fn set_var(name: &str, value: &str) -> (line: String)
    ensures
        line@ == set_var_line(name@, value@),
{
    let mut line = String::from_str("SET VARIABLE ");
    line.append(name);
    line.append(" \"");
    line.append(value);
    line.append("\"\n");
    line
}

/// The command lines that report a decision: one for each of its first
/// three values, and one for the reason where the call has no route.
pub open spec fn set_lookup_lines(status: StatusView) -> Seq<Seq<char>> {
    let parts = status_parts(status);
    let lines = seq![
        set_var_line("LOOKUP_SUCCESS"@, parts.0),
        set_var_line("IS_INTERNAL_DEST"@, parts.1),
        set_var_line("DIAL_TARGET"@, parts.2),
    ];
    if status is Failure {
        lines.push(set_var_line("LOOKUP_REASON"@, parts.3))
    } else {
        lines
    }
}

/// The command lines that report a decision, as [`set_lookup_lines`]
/// defines them.
pub fn set_lookup(status: LookupStatus) -> (lines: Vec<String>)
    ensures
        lines.deep_view() == set_lookup_lines(status@),
{
    let failed = match &status {
        LookupStatus::Failure(_) => true,
        _ => false,
    };
    let ghost view = status@;
    let (success, internal, target, reason) = status.into_parts();
    let mut lines: Vec<String> = Vec::new();
    lines.push(set_var("LOOKUP_SUCCESS", success));
    lines.push(set_var("IS_INTERNAL_DEST", internal));
    lines.push(set_var("DIAL_TARGET", target.as_str()));
    if failed {
        lines.push(set_var("LOOKUP_REASON", reason));
    }
    lines
}

/// All the command lines for a decision: first the trunk, where the call
/// has one, then the lines that report the decision.
pub open spec fn report_lines(outcome: OutcomeView) -> Seq<Seq<char>> {
    match outcome.trunk {
        Some(trunk) => seq![set_var_line("DIAL_TRUNK"@, trunk)] + set_lookup_lines(
            status_of(outcome),
        ),
        None => set_lookup_lines(status_of(outcome)),
    }
}

/// All the command lines for a decision, as [`report_lines`] defines them.
pub fn report(outcome: &RouteOutcome) -> (lines: Vec<String>)
    ensures
        lines.deep_view() == report_lines(outcome@),
{
    let mut lines: Vec<String> = Vec::new();
    match outcome.trunk() {
        Some(trunk) => {
            lines.push(set_var("DIAL_TRUNK", trunk.as_str()));
        },
        None => {},
    }
    let mut rest = set_lookup(LookupStatus::of(outcome));
    lines.append(&mut rest);
    lines
}

} // verus!
