use dialplan::outcome::{build, FailureReason, RouteOutcome};
use dialplan::reply::{reason_tag, report, set_lookup, set_var, LookupStatus};
use dialplan::request::{AgiVars, Mode};
use dialplan::resolver::{handle_outbound, run_lookup, DialPlan, TrunkPolicy};
use dialplan::tables::RoutingTables;
use dialplan::text::{same_text, split_once_at_colon, trim};

fn outbound(plan: &DialPlan, dialed: &str, caller: &str) -> RouteOutcome {
    let vars = AgiVars { dialed: dialed.to_string(), caller: caller.to_string(), mode: None };
    handle_outbound(plan, &vars)
}

fn read(lines: &[&str]) -> (AgiVars, usize) {
    let mut vars = AgiVars::new();
    let mut taken = 0;
    for line in lines {
        taken += 1;
        if !vars.accept_line(line) {
            break;
        }
    }
    (vars, taken)
}

#[test]
fn mode_is_read_from_its_name() {
    assert_eq!(Mode::from_str("inbound"), Some(Mode::Inbound));
    assert_eq!(Mode::from_str("outbound"), Some(Mode::Outbound));
    for other in ["", "Inbound", "INBOUND", "inbound ", " outbound", "in", "both", "outbound\n"] {
        assert_eq!(Mode::from_str(other), None);
    }
}

#[test]
fn a_request_starts_empty_and_outbound() {
    let vars = AgiVars::new();
    assert_eq!(vars.dialed, "");
    assert_eq!(vars.caller, "");
    assert_eq!(vars.mode, Some(Mode::Outbound));
}

#[test]
fn a_request_is_read_line_by_line() {
    let (vars, taken) = read(&[
        "agi_request: lookup.agi",
        "agi_channel: SIP/501-00000001",
        "agi_arg_1: 89235254706",
        "agi_arg_2: 501",
        "agi_arg_3: inbound",
        "",
        "agi_arg_1: 104",
    ]);
    assert_eq!(taken, 6);
    assert_eq!(vars.dialed, "89235254706");
    assert_eq!(vars.caller, "501");
    assert_eq!(vars.mode, Some(Mode::Inbound));
}

#[test]
fn names_and_values_are_trimmed() {
    let (vars, _) = read(&["  agi_arg_1 :  8 (923) 525-47-06 \r\n", "\tagi_arg_2\t:\t501\t\n"]);
    assert_eq!(vars.dialed, "8 (923) 525-47-06");
    assert_eq!(vars.caller, "501");
}

#[test]
fn a_line_is_split_at_its_first_colon() {
    let (vars, _) = read(&["agi_arg_1: 12:34:56", "agi_arg_2::501"]);
    assert_eq!(vars.dialed, "12:34:56");
    assert_eq!(vars.caller, ":501");
}

#[test]
fn a_blank_line_ends_the_request() {
    let mut vars = AgiVars::new();
    assert!(vars.accept_line("agi_arg_1: 104"));
    assert!(!vars.accept_line(""));
    assert!(!vars.accept_line("   "));
    assert!(!vars.accept_line("\r\n"));
    assert!(!vars.accept_line("\t \n"));
    assert_eq!(vars.dialed, "104");
    assert!(vars.accept_line(":"));
    assert!(vars.accept_line("no colon here"));
    assert_eq!(vars.dialed, "104");
}

#[test]
fn other_lines_change_nothing() {
    let (vars, taken) = read(&[
        "agi_arg_4: 999",
        "agi_arg_10: 999",
        "AGI_ARG_1: 999",
        "agi_arg_1 999",
        "agi arg_1: 999",
        ": 999",
    ]);
    assert_eq!(taken, 6);
    assert_eq!(vars.dialed, "");
    assert_eq!(vars.caller, "");
    assert_eq!(vars.mode, Some(Mode::Outbound));
}

#[test]
fn a_later_line_replaces_an_earlier_one() {
    let (vars, _) = read(&["agi_arg_1: 104", "agi_arg_1: 135", "agi_arg_2: 501", "agi_arg_2:"]);
    assert_eq!(vars.dialed, "135");
    assert_eq!(vars.caller, "");
}

#[test]
fn an_unknown_direction_is_kept_as_none() {
    let (vars, _) = read(&["agi_arg_1: 104", "agi_arg_3: sideways"]);
    assert_eq!(vars.mode, None);
    let outcome = run_lookup(&DialPlan::standard(), &vars);
    assert_eq!(outcome.failure(), Some(FailureReason::UnknownDirection));
    let (vars, _) = read(&["agi_arg_3: sideways", "agi_arg_3: outbound"]);
    assert_eq!(vars.mode, Some(Mode::Outbound));
    let (vars, _) = read(&["agi_arg_3:"]);
    assert_eq!(vars.mode, None);
}

#[test]
fn split_at_the_first_colon() {
    assert_eq!(split_once_at_colon("a:b"), Some(("a", "b")));
    assert_eq!(split_once_at_colon("a:b:c"), Some(("a", "b:c")));
    assert_eq!(split_once_at_colon(":"), Some(("", "")));
    assert_eq!(split_once_at_colon(":b"), Some(("", "b")));
    assert_eq!(split_once_at_colon("a:"), Some(("a", "")));
    assert_eq!(split_once_at_colon("é:ü"), Some(("é", "ü")));
    assert_eq!(split_once_at_colon("日本:語"), Some(("日本", "語")));
    assert_eq!(split_once_at_colon(""), None);
    assert_eq!(split_once_at_colon("ab"), None);
    assert_eq!(split_once_at_colon("a；b"), None);
}

#[test]
fn same_text_compares_every_character() {
    assert!(same_text("", ""));
    assert!(same_text("agi_arg_1", "agi_arg_1"));
    assert!(same_text("é", "é"));
    assert!(!same_text("agi_arg_1", "agi_arg_2"));
    assert!(!same_text("agi_arg_1", "agi_arg_"));
    assert!(!same_text("", "a"));
    assert!(!same_text("e", "é"));
}

#[test]
fn reasons_have_their_names() {
    assert_eq!(reason_tag(FailureReason::InvalidFormat), "invalid_format");
    assert_eq!(
        reason_tag(FailureReason::UnknownInboundDestination),
        "unknown_inbound_destination"
    );
    assert_eq!(reason_tag(FailureReason::ShortCodeNotMapped), "short_code_not_mapped");
    assert_eq!(reason_tag(FailureReason::NoTrunkAvailable), "no_trunk_available");
    assert_eq!(reason_tag(FailureReason::UnknownDirection), "unknown_direction");
}

#[test]
fn a_status_has_four_parts() {
    assert_eq!(
        LookupStatus::Internal("502".to_string()).into_parts(),
        ("TRUE", "TRUE", "502".to_string(), "")
    );
    assert_eq!(
        LookupStatus::External("74951234567".to_string()).into_parts(),
        ("TRUE", "FALSE", "74951234567".to_string(), "")
    );
    assert_eq!(
        LookupStatus::Failure("short_code_not_mapped").into_parts(),
        ("FALSE", "FALSE", String::new(), "short_code_not_mapped")
    );
}

#[test]
fn a_status_is_taken_from_the_outcome() {
    let plan = DialPlan::standard();
    assert_eq!(
        LookupStatus::of(&outbound(&plan, "104", "")),
        LookupStatus::Internal("501".to_string())
    );
    assert_eq!(
        LookupStatus::of(&outbound(&plan, "4951234567", "501")),
        LookupStatus::External("74951234567".to_string())
    );
    assert_eq!(
        LookupStatus::of(&outbound(&plan, "999", "501")),
        LookupStatus::Failure("short_code_not_mapped")
    );
    assert_eq!(LookupStatus::of(&outbound(&plan, "", "")), LookupStatus::Failure("invalid_format"));
    assert_eq!(LookupStatus::of(&build(None, None, None)), LookupStatus::Failure(""));
}

#[test]
fn a_station_below_a_hundred_is_reported_in_three_digits() {
    let tables = RoutingTables::from_entries(vec![("200", "007")], vec![]).unwrap();
    let plan = DialPlan { tables, trunk_policy: TrunkPolicy::Optional };
    assert_eq!(
        LookupStatus::of(&outbound(&plan, "200", "")),
        LookupStatus::Internal("007".to_string())
    );
}

#[test]
fn set_var_writes_one_command_line() {
    assert_eq!(set_var("LOOKUP_SUCCESS", "TRUE"), "SET VARIABLE LOOKUP_SUCCESS \"TRUE\"\n");
    assert_eq!(set_var("DIAL_TARGET", ""), "SET VARIABLE DIAL_TARGET \"\"\n");
    assert_eq!(set_var("", ""), "SET VARIABLE  \"\"\n");
    assert_eq!(set_var("A", "say \"hi\""), "SET VARIABLE A \"say \"hi\"\"\n");
}

#[test]
fn set_lookup_reports_a_route_in_three_lines() {
    assert_eq!(
        set_lookup(LookupStatus::Internal("502".to_string())),
        vec![
            "SET VARIABLE LOOKUP_SUCCESS \"TRUE\"\n",
            "SET VARIABLE IS_INTERNAL_DEST \"TRUE\"\n",
            "SET VARIABLE DIAL_TARGET \"502\"\n",
        ]
    );
    assert_eq!(
        set_lookup(LookupStatus::External("74951234567".to_string())),
        vec![
            "SET VARIABLE LOOKUP_SUCCESS \"TRUE\"\n",
            "SET VARIABLE IS_INTERNAL_DEST \"FALSE\"\n",
            "SET VARIABLE DIAL_TARGET \"74951234567\"\n",
        ]
    );
}

#[test]
fn set_lookup_reports_a_refusal_in_four_lines() {
    assert_eq!(
        set_lookup(LookupStatus::Failure("unknown_inbound_destination")),
        vec![
            "SET VARIABLE LOOKUP_SUCCESS \"FALSE\"\n",
            "SET VARIABLE IS_INTERNAL_DEST \"FALSE\"\n",
            "SET VARIABLE DIAL_TARGET \"\"\n",
            "SET VARIABLE LOOKUP_REASON \"unknown_inbound_destination\"\n",
        ]
    );
    assert_eq!(set_lookup(LookupStatus::Failure("")).len(), 4);
}

#[test]
fn report_puts_the_trunk_first() {
    let plan = DialPlan::standard();
    assert_eq!(
        report(&outbound(&plan, "4951234567", "501")),
        vec![
            "SET VARIABLE DIAL_TRUNK \"79235253998\"\n",
            "SET VARIABLE LOOKUP_SUCCESS \"TRUE\"\n",
            "SET VARIABLE IS_INTERNAL_DEST \"FALSE\"\n",
            "SET VARIABLE DIAL_TARGET \"74951234567\"\n",
        ]
    );
}

#[test]
fn report_names_no_trunk_where_there_is_none() {
    let plan = DialPlan::standard();
    assert_eq!(
        report(&outbound(&plan, "4951234567", "")),
        vec![
            "SET VARIABLE LOOKUP_SUCCESS \"TRUE\"\n",
            "SET VARIABLE IS_INTERNAL_DEST \"FALSE\"\n",
            "SET VARIABLE DIAL_TARGET \"74951234567\"\n",
        ]
    );
    assert_eq!(
        report(&outbound(&plan, "89235254706", "501")),
        vec![
            "SET VARIABLE LOOKUP_SUCCESS \"TRUE\"\n",
            "SET VARIABLE IS_INTERNAL_DEST \"TRUE\"\n",
            "SET VARIABLE DIAL_TARGET \"508\"\n",
        ]
    );
    assert_eq!(
        report(&outbound(&plan, "999", "501")),
        vec![
            "SET VARIABLE LOOKUP_SUCCESS \"FALSE\"\n",
            "SET VARIABLE IS_INTERNAL_DEST \"FALSE\"\n",
            "SET VARIABLE DIAL_TARGET \"\"\n",
            "SET VARIABLE LOOKUP_REASON \"short_code_not_mapped\"\n",
        ]
    );
}

#[test]
fn a_whole_call_from_request_to_report() {
    let (vars, _) = read(&[
        "agi_network: yes",
        "agi_arg_1: 8 (923) 525-40-61",
        "agi_arg_2: 507",
        "agi_arg_3: outbound",
        "",
    ]);
    let plan = DialPlan::standard();
    assert_eq!(
        report(&run_lookup(&plan, &vars)),
        vec![
            "SET VARIABLE LOOKUP_SUCCESS \"TRUE\"\n",
            "SET VARIABLE IS_INTERNAL_DEST \"TRUE\"\n",
            "SET VARIABLE DIAL_TARGET \"502\"\n",
        ]
    );
}

#[test]
fn trim_takes_whitespace_off_both_ends() {
    assert_eq!(trim("  104  "), "104");
    assert_eq!(trim("104"), "104");
    assert_eq!(trim("\t104\r\n"), "104");
    assert_eq!(trim(" 1 0 4 "), "1 0 4");
    assert_eq!(trim("x"), "x");
    assert_eq!(trim(" x"), "x");
    assert_eq!(trim("x "), "x");
    assert_eq!(trim(""), "");
    assert_eq!(trim(" "), "");
    assert_eq!(trim(" \t\r\n "), "");
}

#[test]
fn trim_knows_the_whitespace_of_every_script() {
    assert_eq!(trim("\u{00a0}104\u{3000}"), "104");
    assert_eq!(trim("\u{2028}é ü\u{2029}"), "é ü");
    assert_eq!(trim("\u{0085}\u{1680}\u{2003}"), "");
    // A zero-width space is no whitespace.
    assert_eq!(trim("\u{200b}104\u{200b}"), "\u{200b}104\u{200b}");
}

#[test]
fn trim_agrees_with_the_standard_library() {
    let pieces = ["", " ", "\t", "\n", "\r\n", "a", "é", "1 2", "\u{00a0}", "\u{3000}", "\u{200b}", ":"];
    for head in pieces {
        for body in pieces {
            for tail in pieces {
                let text = format!("{}{}{}", head, body, tail);
                assert_eq!(trim(&text), text.trim());
            }
        }
    }
}
