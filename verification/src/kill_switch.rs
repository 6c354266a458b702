//! The decisions of `krypt-panic`, the emergency handler the daemon calls
//! when the auth stick is pulled.
//!
//! It is fail-secure: a missing, empty or unknown level never weakens the
//! response; it escalates to `nuke`.

use vstd::prelude::*;
use crate::text::{chars_of, range_starts_with, starts_with, str_eq, substring};
use vstd::string::StringExecFns;

verus! {

/// `"--level="`.
pub open spec fn level_flag() -> Seq<char> {
    seq!['-', '-', 'l', 'e', 'v', 'e', 'l', '=']
}

/// The level that the arguments `args` select: the value of the first
/// `--level=` argument, else `nuke`.
pub open spec fn selected_level(args: Seq<Seq<char>>) -> Seq<char>
    decreases args.len(),
{
    if args.len() == 0 {
        "nuke"@
    } else if starts_with(args[0], level_flag()) {
        args[0].skip(level_flag().len() as int)
    } else {
        selected_level(args.drop_first())
    }
}

/// Reads the value of `--level=<x>` out of the command line arguments; the
/// first one counts. Without one the level is `nuke`.
pub fn parse_level_arg(args: Vec<String>) -> (r: String)
    ensures
        r@ == selected_level(args@.map_values(|s: String| s@)),
{
    let ghost all = args@.map_values(|s: String| s@);
    let flag = vec!['-', '-', 'l', 'e', 'v', 'e', 'l', '='];
    assert(flag@ =~= level_flag());
    let mut i: usize = 0;
    assert(all.skip(0) =~= all);
    while i < args.len()
        invariant
            i <= args@.len(),
            all == args@.map_values(|s: String| s@),
            flag@ == level_flag(),
            selected_level(all) == selected_level(all.skip(i as int)),
        decreases args@.len() - i,
    {
        let arg = args[i].as_str();
        let v = chars_of(arg);
        assert(all.skip(i as int)[0] == arg@);
        assert(all.skip(i as int).drop_first() =~= all.skip(i + 1));
        assert(v@.subrange(0, v.len() as int) =~= v@);
        if range_starts_with(&v, 0, v.len(), &flag) {
            let r = substring(arg, &v, flag.len(), v.len());
            assert(v@.subrange(flag.len() as int, v.len() as int) =~= v@.skip(8));
            return r;
        }
        i = i + 1;
    }
    assert(all.skip(i as int) =~= Seq::<Seq<char>>::empty());
    String::from_str("nuke")
}

/// The emergency responses.
#[derive(Debug, Clone, Copy, PartialEq, Eq, Structural)]
pub enum PanicAction {
    /// Lock all sessions.
    Lock,
    /// Freeze the VMs and suspend to RAM.
    Suspend,
    /// Kill the VMs, scrub what can be scrubbed and power off.
    Nuke,
}

/// The response to a level, and whether it was escalated from an unknown
/// level.
#[derive(Debug, Clone, Copy, PartialEq, Eq, Structural)]
pub struct PanicPlan {
    pub action: PanicAction,
    pub escalated: bool,
}

/// The response to `level`: `lock` and `suspend` as named, `nuke` for
/// `nuke` and, escalated, for anything else.
pub open spec fn plan_for(level: Seq<char>) -> PanicPlan {
    if level == "lock"@ {
        PanicPlan { action: PanicAction::Lock, escalated: false }
    } else if level == "suspend"@ {
        PanicPlan { action: PanicAction::Suspend, escalated: false }
    } else if level == "nuke"@ {
        PanicPlan { action: PanicAction::Nuke, escalated: false }
    } else {
        PanicPlan { action: PanicAction::Nuke, escalated: true }
    }
}

/// Chooses the response to a panic level; an unknown level escalates to
/// `nuke`, marked so that the escalation can be logged.
pub fn plan_panic(level: &str) -> (p: PanicPlan)
    ensures
        p == plan_for(level@),
{
    if str_eq(level, "lock") {
        PanicPlan { action: PanicAction::Lock, escalated: false }
    } else if str_eq(level, "suspend") {
        PanicPlan { action: PanicAction::Suspend, escalated: false }
    } else if str_eq(level, "nuke") {
        PanicPlan { action: PanicAction::Nuke, escalated: false }
    } else {
        PanicPlan { action: PanicAction::Nuke, escalated: true }
    }
}

} // verus!
