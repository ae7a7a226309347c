//! What the telephony control process says of a call: the dialed text, the
//! caller, and the direction.

use crate::text::{
    is_whitespace, lemma_trimmed_solid, lemma_trimmed_whitespace, same_text, split_at_colon,
    split_once_at_colon, trim, trimmed,
};
use vstd::prelude::*;

verus! {

/// The direction of a call.
#[derive(Clone, Copy, Debug, PartialEq, Eq, Structural)]
pub enum Mode {
    /// From the public network to a station.
    Inbound,
    /// From a station.
    Outbound,
}

/// The direction that `word` names: `inbound` or `outbound`, spelled exactly
/// so; any other word names none.
pub open spec fn mode_named(word: Seq<char>) -> Option<Mode> {
    if word == "inbound"@ {
        Some(Mode::Inbound)
    } else if word == "outbound"@ {
        Some(Mode::Outbound)
    } else {
        None
    }
}

impl Mode {
    /// Reads a direction from its name, as [`mode_named`] defines it.
    pub fn from_str(s: &str) -> (mode: Option<Mode>)
        ensures
            mode == mode_named(s@),
    {
        if same_text(s, "inbound") {
            Some(Mode::Inbound)
        } else if same_text(s, "outbound") {
            Some(Mode::Outbound)
        } else {
            None
        }
    }
}

/// The three things that are known of a call before it is resolved.
#[derive(Debug, PartialEq, Eq)]
pub struct AgiVars {
    /// The dialed text, as it came.
    pub dialed: String,
    /// The caller, as it came.
    pub caller: String,
    /// The direction; `None` when the name that came names none.
    pub mode: Option<Mode>,
}

/// The three things that are known of a call, as mathematical values.
pub struct AgiVarsView {
    /// The dialed text.
    pub dialed: Seq<char>,
    /// The caller.
    pub caller: Seq<char>,
    /// The direction.
    pub mode: Option<Mode>,
}

impl View for AgiVars {
    type V = AgiVarsView;

    open spec fn view(&self) -> AgiVarsView {
        AgiVarsView { dialed: self.dialed@, caller: self.caller@, mode: self.mode }
    }
}

impl Clone for AgiVars {
    fn clone(&self) -> (copy: AgiVars)
        ensures
            copy@ == self@,
    {
        AgiVars { dialed: self.dialed.clone(), caller: self.caller.clone(), mode: self.mode }
    }
}

/// Whether `line` ends the request: nothing is left of it once it is
/// trimmed.
pub open spec fn ends_request(line: Seq<char>) -> bool {
    trimmed(line).len() == 0
}

/// A line ends the request exactly when it holds whitespace only, or
/// nothing at all.
pub proof fn lemma_blank_line_ends_request(line: Seq<char>)
    ensures
        ends_request(line) <==> forall|k: int|
            0 <= k < line.len() ==> is_whitespace(#[trigger] line[k]),
{
    if forall|k: int| 0 <= k < line.len() ==> is_whitespace(#[trigger] line[k]) {
        lemma_trimmed_whitespace(line);
    } else {
        let k = choose|k: int| 0 <= k < line.len() && !is_whitespace(#[trigger] line[k]);
        lemma_trimmed_solid(line, k);
    }
}

/// What is known of a call once `line` has been read.
///
/// The line is trimmed and split at its first colon; the name before it and
/// the value after it are trimmed in turn. `agi_arg_1` gives the dialed
/// text, `agi_arg_2` the caller, `agi_arg_3` the direction. A line without a
/// colon, or with another name, changes nothing.
pub open spec fn accepted(vars: AgiVarsView, line: Seq<char>) -> AgiVarsView {
    match split_at_colon(trimmed(line)) {
        Some((name, value)) => {
            if trimmed(name) == "agi_arg_1"@ {
                AgiVarsView { dialed: trimmed(value), caller: vars.caller, mode: vars.mode }
            } else if trimmed(name) == "agi_arg_2"@ {
                AgiVarsView { dialed: vars.dialed, caller: trimmed(value), mode: vars.mode }
            } else if trimmed(name) == "agi_arg_3"@ {
                AgiVarsView {
                    dialed: vars.dialed,
                    caller: vars.caller,
                    mode: mode_named(trimmed(value)),
                }
            } else {
                vars
            }
        },
        None => vars,
    }
}

impl AgiVars {
    /// What is known before anything has been read: no dialed text, no
    /// caller, and a call that goes out.
    pub fn new() -> (vars: AgiVars)
        ensures
            vars@ == (AgiVarsView {
                dialed: Seq::empty(),
                caller: Seq::empty(),
                mode: Some(Mode::Outbound),
            }),
    {
        AgiVars { dialed: String::new(), caller: String::new(), mode: Some(Mode::Outbound) }
    }

    /// Reads one line of the request.
    ///
    /// Returns `false` when the line ends the request, and then changes
    /// nothing. Any other line is taken in as [`accepted`] defines it.
    pub fn accept_line(&mut self, line: &str) -> (more: bool)
        ensures
            more == !ends_request(line@),
            final(self)@ == if more {
                accepted(old(self)@, line@)
            } else {
                old(self)@
            },
    {
        let line = trim(line);
        if line.is_empty() {
            return false;
        }
        match split_once_at_colon(line) {
            Some((name, value)) => {
                let name = trim(name);
                let value = trim(value);
                if same_text(name, "agi_arg_1") {
                    self.dialed = value.to_owned();
                } else if same_text(name, "agi_arg_2") {
                    self.caller = value.to_owned();
                } else if same_text(name, "agi_arg_3") {
                    self.mode = Mode::from_str(value);
                }
            },
            None => {},
        }
        true
    }
}

} // verus!
