use krypt::kill_switch::{parse_level_arg, plan_panic, PanicAction, PanicPlan};

fn args(parts: &[&str]) -> Vec<String> {
    parts.iter().map(|s| s.to_string()).collect()
}

#[test]
fn default_is_nuke_when_no_args() {
    assert_eq!(parse_level_arg(args(&[])), "nuke");
}

#[test]
fn default_is_nuke_when_other_args_only() {
    assert_eq!(parse_level_arg(args(&["--verbose", "foo"])), "nuke");
}

#[test]
fn parses_lock() {
    assert_eq!(parse_level_arg(args(&["--level=lock"])), "lock");
}

#[test]
fn parses_suspend_with_other_args_around() {
    assert_eq!(parse_level_arg(args(&["--verbose", "--level=suspend", "--debug"])), "suspend");
}

#[test]
fn first_level_wins() {
    assert_eq!(parse_level_arg(args(&["--level=lock", "--level=nuke"])), "lock");
}

#[test]
fn empty_level_returned_verbatim() {
    assert_eq!(parse_level_arg(args(&["--level="])), "");
}

// --- further cases ---

#[test]
fn unknown_levels_escalate_to_nuke() {
    assert_eq!(plan_panic("lock"), PanicPlan { action: PanicAction::Lock, escalated: false });
    assert_eq!(plan_panic("suspend"), PanicPlan { action: PanicAction::Suspend, escalated: false });
    assert_eq!(plan_panic("nuke"), PanicPlan { action: PanicAction::Nuke, escalated: false });
    assert_eq!(plan_panic(""), PanicPlan { action: PanicAction::Nuke, escalated: true });
    assert_eq!(plan_panic("LOCK"), PanicPlan { action: PanicAction::Nuke, escalated: true });
    assert_eq!(
        plan_panic(&parse_level_arg(args(&["--level=fooled-the-config"]))),
        PanicPlan { action: PanicAction::Nuke, escalated: true }
    );
}
