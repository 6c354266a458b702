//! Properties that span several functions of the library, proved over the
//! specifications that the functions' own contracts use.

use vstd::prelude::*;
use crate::config::{
    config_fault, is_bad_path, is_known_vm, rule_fault, rules_fault_from, stick_fault,
    sticks_fault_from, valid_serial, valid_vm_name, vm_fault, vms_fault_from, KryptConfig,
    PolicyEntry, VmEntry, AuthStickEntry,
};
use crate::input::trust_score;
use crate::ipc::le_value;
use crate::kill_switch::{level_flag, plan_for, selected_level, PanicAction};
use crate::policy::{
    decide, first_rule, rank, trust_name, trust_of, with_vm_trust, PolicyAction, RuleView,
    TrustLevel,
};
use crate::stick::{partition_base, trim_end_digits};
use crate::text::starts_with;
use crate::usb::is_known_stick;
use crate::usb::UsbDevice;
use crate::xl::{dom0_name, guests_in, xl_guests};
use crate::config::{PanicLevel, PolicyAction as ConfigAction};
use crate::daemon::level_name;
use crate::frame::{pixel_byte, trust_color};
use crate::kill_switch::PanicPlan;
use crate::policy::entry_rule;
use crate::stick::{is_letter, is_yes};
use crate::text::trim;
use crate::wayland::TrustLevel as WindowTrust;

verus! {

// ---------------------------------------------------------------------------
// Policy
// ---------------------------------------------------------------------------

proof fn lemma_first_rule_push(rules: Seq<RuleView>, r: RuleView, s: Seq<char>, t: Seq<char>)
    ensures
        first_rule(rules.push(r), s, t) == match first_rule(rules, s, t) {
            Some(a) => Some(a),
            None => if r.0 == s && r.1 == t {
                Some(r.2)
            } else {
                None
            },
        },
    decreases rules.len(),
{
    if rules.len() == 0 {
        assert(rules.push(r).drop_first() =~= Seq::<RuleView>::empty());
        assert(rules.push(r)[0] == r);
    } else {
        assert(rules.push(r).drop_first() =~= rules.drop_first().push(r));
        assert(rules.push(r)[0] == rules[0]);
        lemma_first_rule_push(rules.drop_first(), r, s, t);
    }
}

/// The first rule for a pair wins: rules added later, for the same pair or
/// another, never change the decision of a pair that already has a rule.
pub proof fn law_first_rule_wins(
    rules: Seq<RuleView>,
    trust: Map<Seq<char>, TrustLevel>,
    later: RuleView,
    source: Seq<char>,
    target: Seq<char>,
)
    requires
        first_rule(rules, source, target) is Some,
    ensures
        decide(rules.push(later), trust, source, target) == decide(rules, trust, source, target),
{
    lemma_first_rule_push(rules, later, source, target);
}

/// An explicit rule overrides the trust levels: a rule added for a pair
/// that has none decides that pair.
pub proof fn law_new_rule_decides(
    rules: Seq<RuleView>,
    trust: Map<Seq<char>, TrustLevel>,
    rule: RuleView,
)
    requires
        first_rule(rules, rule.0, rule.1) is None,
    ensures
        decide(rules.push(rule), trust, rule.0, rule.1) == rule.2,
{
    lemma_first_rule_push(rules, rule, rule.0, rule.1);
}

/// A rule for another pair changes nothing for this pair.
pub proof fn law_rule_for_other_pair(
    rules: Seq<RuleView>,
    trust: Map<Seq<char>, TrustLevel>,
    rule: RuleView,
    source: Seq<char>,
    target: Seq<char>,
)
    requires
        !(rule.0 == source && rule.1 == target),
    ensures
        decide(rules.push(rule), trust, source, target) == decide(rules, trust, source, target),
{
    lemma_first_rule_push(rules, rule, source, target);
}

/// A lower trust level can never contact a higher one: without an explicit
/// rule for the pair, such a request is denied.
pub proof fn law_no_contact_upward(
    rules: Seq<RuleView>,
    trust: Map<Seq<char>, TrustLevel>,
    source: Seq<char>,
    target: Seq<char>,
)
    requires
        first_rule(rules, source, target) is None,
        rank(trust_of(trust, source)) < rank(trust_of(trust, target)),
    ensures
        decide(rules, trust, source, target) == PolicyAction::Deny,
{
}

/// The trust levels alone never allow a request: without an explicit rule
/// the answer is a denial or a question to the user.
pub proof fn law_fallback_never_allows(
    rules: Seq<RuleView>,
    trust: Map<Seq<char>, TrustLevel>,
    source: Seq<char>,
    target: Seq<char>,
)
    requires
        first_rule(rules, source, target) is None,
    ensures
        decide(rules, trust, source, target) != PolicyAction::Allow,
{
}

/// An unknown VM counts as red: without a rule it is denied every VM of a
/// level above red, and it may ask to reach any other.
pub proof fn law_unknown_vm_is_red(
    rules: Seq<RuleView>,
    trust: Map<Seq<char>, TrustLevel>,
    source: Seq<char>,
    target: Seq<char>,
)
    requires
        first_rule(rules, source, target) is None,
        !trust.contains_key(source),
    ensures
        decide(rules, trust, source, target) == (if trust_of(trust, target) == TrustLevel::Red {
            PolicyAction::AskUser
        } else {
            PolicyAction::Deny
        }),
{
}

/// Loading a configuration gives every configured VM a trust level.
pub proof fn law_loaded_vms_have_trust(
    m: Map<Seq<char>, TrustLevel>,
    vms: Seq<VmEntry>,
    name: Seq<char>,
)
    requires
        is_known_vm(vms, name),
    ensures
        with_vm_trust(m, vms).contains_key(name),
    decreases vms.len(),
{
    if vms.last().name@ != name {
        let j = choose|j: int| 0 <= j < vms.len() && (#[trigger] vms[j]).name@ == name;
        assert(vms.drop_last()[j] == vms[j]);
        law_loaded_vms_have_trust(m, vms.drop_last(), name);
    }
}

/// The trust names the daemon reports rank in the GUI's clipboard check
/// as the policy engine ranks the levels.
pub proof fn law_trust_names_rank_consistently(t: TrustLevel)
    ensures
        trust_score(trust_name(t)) as nat == rank(t),
{
    reveal_strlit("black");
    reveal_strlit("green");
    reveal_strlit("yellow");
    reveal_strlit("orange");
    let n = trust_name(t);
    match t {
        TrustLevel::Red => {
            assert(n != "black"@ && n != "green"@ && n != "yellow"@ && n != "orange"@) by {
                assert(n.len() == 3);
            }
        },
        TrustLevel::Orange => {
            assert(n =~= "orange"@);
            assert(n != "black"@ && n != "green"@) by {
                assert(n.len() == 6);
            }
            assert(n != "yellow"@) by {
                assert(n[0] != "yellow"@[0]);
            }
        },
        TrustLevel::Yellow => {
            assert(n =~= "yellow"@);
            assert(n != "black"@ && n != "green"@) by {
                assert(n.len() == 6);
            }
        },
        TrustLevel::Green => {
            assert(n =~= "green"@);
            assert(n != "black"@) by {
                assert(n[0] != "black"@[0]);
            }
        },
        TrustLevel::Black => {
            assert(n =~= "black"@);
        },
    }
}

// ---------------------------------------------------------------------------
// Configuration
// ---------------------------------------------------------------------------

proof fn lemma_vms_sound(vms: Seq<VmEntry>, i: int, k: int)
    requires
        0 <= i <= k < vms.len(),
        vms_fault_from(vms, i) is None,
    ensures
        vm_fault(vms, k) is None,
    decreases k - i,
{
    if i < k {
        lemma_vms_sound(vms, i + 1, k);
    }
}

proof fn lemma_sticks_sound(sticks: Seq<AuthStickEntry>, i: int, k: int)
    requires
        0 <= i <= k < sticks.len(),
        sticks_fault_from(sticks, i) is None,
    ensures
        stick_fault(sticks, k) is None,
    decreases k - i,
{
    if i < k {
        lemma_sticks_sound(sticks, i + 1, k);
    }
}

proof fn lemma_rules_sound(vms: Seq<VmEntry>, rules: Seq<PolicyEntry>, i: int, k: int)
    requires
        0 <= i <= k < rules.len(),
        rules_fault_from(vms, rules, i) is None,
    ensures
        rule_fault(vms, rules[k]) is None,
    decreases k - i,
{
    if i < k {
        lemma_rules_sound(vms, rules, i + 1, k);
    }
}

/// What a configuration that passes `validate` guarantees: valid and
/// distinct VM names, kernel paths the xl config can hold, valid and
/// distinct stick serials, and policy rules that name only configured VMs.
pub proof fn law_validated_config(cfg: &KryptConfig)
    requires
        config_fault(cfg) is None,
    ensures
        forall|i: int| 0 <= i < cfg.vms@.len() ==> valid_vm_name(#[trigger] cfg.vms@[i].name@),
        forall|i: int, j: int|
            0 <= i < j < cfg.vms@.len() ==> (#[trigger] cfg.vms@[i]).name@ != (
            #[trigger] cfg.vms@[j]).name@,
        forall|i: int| 0 <= i < cfg.vms@.len() ==> !is_bad_path(#[trigger] cfg.vms@[i].kernel@),
        forall|i: int|
            0 <= i < cfg.auth_sticks@.len() ==> valid_serial(#[trigger] cfg.auth_sticks@[i].serial@),
        forall|i: int, j: int|
            0 <= i < j < cfg.auth_sticks@.len() ==> (#[trigger] cfg.auth_sticks@[i]).serial@ != (
            #[trigger] cfg.auth_sticks@[j]).serial@,
        forall|k: int|
            0 <= k < cfg.policy@.len() ==> is_known_vm(cfg.vms@, (#[trigger] cfg.policy@[k]).source@)
                && is_known_vm(cfg.vms@, cfg.policy@[k].target@),
{
    let vms = cfg.vms@;
    assert forall|i: int| 0 <= i < vms.len() implies valid_vm_name(#[trigger] vms[i].name@)
        && !is_bad_path(vms[i].kernel@) by {
        lemma_vms_sound(vms, 0, i);
    }
    assert forall|i: int, j: int| 0 <= i < j < vms.len() implies (#[trigger] vms[i]).name@ != (
    #[trigger] vms[j]).name@ by {
        lemma_vms_sound(vms, 0, j);
    }
    let sticks = cfg.auth_sticks@;
    assert forall|i: int| 0 <= i < sticks.len() implies valid_serial(
        #[trigger] sticks[i].serial@,
    ) by {
        lemma_sticks_sound(sticks, 0, i);
    }
    assert forall|i: int, j: int| 0 <= i < j < sticks.len() implies (#[trigger] sticks[i]).serial@
        != (#[trigger] sticks[j]).serial@ by {
        lemma_sticks_sound(sticks, 0, j);
    }
    assert forall|k: int| 0 <= k < cfg.policy@.len() implies is_known_vm(
        vms,
        (#[trigger] cfg.policy@[k]).source@,
    ) && is_known_vm(vms, cfg.policy@[k].target@) by {
        lemma_rules_sound(vms, cfg.policy@, 0, k);
    }
}

// ---------------------------------------------------------------------------
// IPC framing
// ---------------------------------------------------------------------------

/// A frame header is the only encoding of its length: two headers that
/// announce the same length are the same four bytes, so what
/// `frame_length` reads is what `frame_header` wrote.
pub proof fn law_frame_header_unique(a: Seq<u8>, b: Seq<u8>)
    requires
        a.len() == 4,
        b.len() == 4,
        le_value(a) == le_value(b),
    ensures
        a == b,
{
    let (a0, a1, a2, a3) = (a[0] as int, a[1] as int, a[2] as int, a[3] as int);
    let (b0, b1, b2, b3) = (b[0] as int, b[1] as int, b[2] as int, b[3] as int);
    assert(a0 == b0 && a1 == b1 && a2 == b2 && a3 == b3) by (nonlinear_arith)
        requires
            0 <= a0 < 256,
            0 <= a1 < 256,
            0 <= a2 < 256,
            0 <= a3 < 256,
            0 <= b0 < 256,
            0 <= b1 < 256,
            0 <= b2 < 256,
            0 <= b3 < 256,
            a0 + 256 * a1 + 65536 * a2 + 16777216 * a3 == b0 + 256 * b1 + 65536 * b2 + 16777216
                * b3,
    ;
    assert(a =~= b);
}

// ---------------------------------------------------------------------------
// Kill switch
// ---------------------------------------------------------------------------

/// Fail-secure: only the exact levels `lock` and `suspend` avoid `nuke`;
/// an escalated level always ends in `nuke`.
pub proof fn law_panic_fail_secure(level: Seq<char>)
    ensures
        plan_for(level).action != PanicAction::Nuke ==> (level == "lock"@ || level == "suspend"@),
        plan_for(level).escalated ==> plan_for(level).action == PanicAction::Nuke,
        plan_for(level).escalated <==> !(level == "lock"@ || level == "suspend"@ || level
            == "nuke"@),
{
}

/// Without a `--level=` argument the level is `nuke`.
pub proof fn law_default_level_is_nuke(args: Seq<Seq<char>>)
    requires
        forall|i: int| 0 <= i < args.len() ==> !starts_with(#[trigger] args[i], level_flag()),
    ensures
        selected_level(args) == "nuke"@,
    decreases args.len(),
{
    if args.len() > 0 {
        assert(!starts_with(args[0], level_flag()));
        assert forall|i: int| 0 <= i < args.drop_first().len() implies !starts_with(
            #[trigger] args.drop_first()[i],
            level_flag(),
        ) by {
            assert(args.drop_first()[i] == args[i + 1]);
        }
        law_default_level_is_nuke(args.drop_first());
    }
}

proof fn lemma_guests_not_dom0(ls: Seq<Seq<char>>, two: bool)
    ensures
        forall|i: int| 0 <= i < guests_in(ls, two).len() ==> #[trigger] guests_in(ls, two)[i] != dom0_name(),
    decreases ls.len(),
{
    if ls.len() > 0 {
        lemma_guests_not_dom0(ls.drop_first(), two);
        let rest = guests_in(ls.drop_first(), two);
        let g = guests_in(ls, two);
        assert forall|i: int| 0 <= i < g.len() implies #[trigger] g[i] != dom0_name() by {
            if g.len() != rest.len() {
                if i > 0 {
                    assert(g[i] == rest[i - 1]);
                }
            }
        }
    }
}

/// The control domain is never frozen or killed: `Domain-0` is never among
/// the guests read out of `xl list`.
pub proof fn law_dom0_is_never_a_guest(text: Seq<char>, two_fields: bool)
    ensures
        forall|i: int|
            0 <= i < xl_guests(text, two_fields).len() ==> #[trigger] xl_guests(text, two_fields)[i]
                != dom0_name(),
{
    let ls = crate::text::lines(text);
    if ls.len() > 0 {
        lemma_guests_not_dom0(ls.drop_first(), two_fields);
    }
}

/// Once a stick is registered, a device with its serial is that auth
/// stick: pulling it is `AuthStickRemoved`. A device without a serial is
/// never an auth stick.
pub proof fn law_registered_stick_is_known(
    sticks: Map<Seq<char>, u32>,
    serial: Seq<char>,
    slot: u32,
    device: UsbDevice,
)
    ensures
        (device.serial matches Some(s) && s@ == serial) ==> is_known_stick(
            sticks.insert(serial, slot),
            device,
        ),
        device.serial is None ==> !is_known_stick(sticks, device),
{
}

// ---------------------------------------------------------------------------
// Block devices
// ---------------------------------------------------------------------------

proof fn lemma_trim_end_digits_prefix(s: Seq<char>)
    ensures
        trim_end_digits(s).len() <= s.len(),
        trim_end_digits(s) == s.take(trim_end_digits(s).len() as int),
    decreases s.len(),
{
    if s.len() > 0 && crate::stick::is_ascii_digit(s.last()) {
        lemma_trim_end_digits_prefix(s.drop_last());
        let t = trim_end_digits(s.drop_last());
        assert(s.drop_last().take(t.len() as int) =~= s.take(t.len() as int));
    } else {
        assert(s.take(s.len() as int) =~= s);
    }
}

proof fn lemma_last_p_in_range(s: Seq<char>)
    ensures
        crate::stick::last_p(s) matches Some(p) ==> 0 <= p < s.len(),
    decreases s.len(),
{
    if s.len() > 0 && s.last() != 'p' {
        lemma_last_p_in_range(s.drop_last());
    }
}

/// The device of a partition is a leading part of its name, and a name is
/// never stripped to nothing.
pub proof fn law_partition_base_is_prefix(name: Seq<char>)
    ensures
        partition_base(name).len() <= name.len(),
        partition_base(name) == name.take(partition_base(name).len() as int),
        name.len() > 0 ==> partition_base(name).len() > 0,
{
    lemma_trim_end_digits_prefix(name);
    lemma_last_p_in_range(name);
    assert(name.take(name.len() as int) =~= name);
    if let Some(pos) = crate::stick::last_p(name) {
        assert(name.take(pos).len() == pos);
        assert(name.take(pos) =~= name.take(name.take(pos).len() as int));
    }
}

// ---------------------------------------------------------------------------
// What each configured, chosen or drawn value means
// ---------------------------------------------------------------------------

/// The policy action a configured action word stands for.
pub open spec fn configured_action(a: ConfigAction) -> PolicyAction {
    match a {
        ConfigAction::Allow => PolicyAction::Allow,
        ConfigAction::Deny => PolicyAction::Deny,
        ConfigAction::Ask => PolicyAction::AskUser,
    }
}

proof fn lemma_first_rule_concat(a: Seq<RuleView>, b: Seq<RuleView>, s: Seq<char>, t: Seq<char>)
    ensures
        first_rule(a + b, s, t) == match first_rule(a, s, t) {
            Some(x) => Some(x),
            None => first_rule(b, s, t),
        },
    decreases a.len(),
{
    if a.len() == 0 {
        assert(a + b =~= b);
    } else {
        assert((a + b)[0] == a[0]);
        assert((a + b).drop_first() =~= a.drop_first() + b);
        lemma_first_rule_concat(a.drop_first(), b, s, t);
    }
}

proof fn lemma_first_rule_at(b: Seq<RuleView>, s: Seq<char>, t: Seq<char>, k: int)
    requires
        0 <= k < b.len(),
        b[k].0 == s && b[k].1 == t,
        forall|j: int| 0 <= j < k ==> !((#[trigger] b[j]).0 == s && b[j].1 == t),
    ensures
        first_rule(b, s, t) == Some(b[k].2),
    decreases k,
{
    if k > 0 {
        assert(!(b[0].0 == s && b[0].1 == t));
        assert forall|j: int| 0 <= j < k - 1 implies !((#[trigger] b.drop_first()[j]).0 == s
            && b.drop_first()[j].1 == t) by {
            assert(b.drop_first()[j] == b[j + 1]);
        }
        lemma_first_rule_at(b.drop_first(), s, t, k - 1);
    }
}

/// Loading a configuration keeps each policy entry's pair and action: the
/// rule loaded for entry `k` after the rules `rules0` is for its source and
/// target, with `Allow` for `allow`, `Deny` for `deny` and `AskUser` for
/// `ask`; and where neither an earlier rule nor an earlier entry covers the
/// pair, that entry decides it.
pub proof fn law_loaded_entry_keeps_action(
    rules0: Seq<RuleView>,
    policy: Seq<PolicyEntry>,
    trust: Map<Seq<char>, TrustLevel>,
    k: int,
)
    requires
        0 <= k < policy.len(),
    ensures
        ({
            let loaded = rules0 + policy.map_values(|e: PolicyEntry| entry_rule(e));
            &&& loaded.len() == rules0.len() + policy.len()
            &&& loaded[rules0.len() + k] == (
                policy[k].source@,
                policy[k].target@,
                configured_action(policy[k].action),
            )
            &&& (first_rule(rules0, policy[k].source@, policy[k].target@) is None && forall|j: int|
                0 <= j < k ==> !((#[trigger] policy[j]).source@ == policy[k].source@
                    && policy[j].target@ == policy[k].target@)) ==> decide(
                loaded,
                trust,
                policy[k].source@,
                policy[k].target@,
            ) == configured_action(policy[k].action)
        }),
{
    let entries = policy.map_values(|e: PolicyEntry| entry_rule(e));
    let loaded = rules0 + entries;
    let s = policy[k].source@;
    let t = policy[k].target@;
    assert(loaded[rules0.len() + k] == entries[k]);
    if first_rule(rules0, s, t) is None && forall|j: int|
        0 <= j < k ==> !((#[trigger] policy[j]).source@ == s && policy[j].target@ == t) {
        assert forall|j: int| 0 <= j < k implies !((#[trigger] entries[j]).0 == s && entries[j].1
            == t) by {
            assert(entries[j] == entry_rule(policy[j]));
        }
        lemma_first_rule_at(entries, s, t, k);
        lemma_first_rule_concat(rules0, entries, s, t);
    }
}

/// A stick serial is valid exactly when it has 1 to 64 characters, each a
/// printable ASCII character other than space (code points 0x21 to 0x7E);
/// lowercase letters and digits are among them.
pub proof fn law_valid_serial_is_printable_ascii(s: Seq<char>)
    ensures
        valid_serial(s) <==> (1 <= s.len() <= 64 && forall|i: int|
            0 <= i < s.len() ==> 0x21 <= (#[trigger] s[i]) as int <= 0x7e),
{
    assert forall|i: int| 0 <= i < s.len() implies (crate::config::is_graphic(#[trigger] s[i]) <==> (
    0x21 <= (s[i] as int) <= 0x7e)) by {
        assert(('!' as int) == 0x21 && ('~' as int) == 0x7e);
    }
}

/// The level handed to `krypt-panic` names the configured level: it plans
/// exactly that action, and never as an escalation.
pub proof fn law_level_arg_names_the_level(l: PanicLevel)
    ensures
        plan_for(level_name(l)) == (PanicPlan {
            action: match l {
                PanicLevel::Lock => PanicAction::Lock,
                PanicLevel::Suspend => PanicAction::Suspend,
                PanicLevel::Nuke => PanicAction::Nuke,
            },
            escalated: false,
        }),
{
    reveal_strlit("lock");
    reveal_strlit("suspend");
    reveal_strlit("nuke");
    assert("lock"@.len() == 4 && "suspend"@.len() == 7 && "nuke"@.len() == 4);
    assert("lock"@ != "nuke"@) by {
        assert("lock"@[0] != "nuke"@[0]);
    }
}

/// The colour of a trust level as a 24-bit `0xRRGGBB` number.
pub open spec fn rgb_value(c: (u8, u8, u8)) -> int {
    65536 * (c.0 as int) + 256 * (c.1 as int) + (c.2 as int)
}

/// Each trust level has its own Catppuccin Mocha colour: red #f38ba8,
/// orange (peach) #fab387, yellow #f9e2af, green #a6e3a1 and black (crust)
/// #11111b; distinct levels get distinct colours, and a pixel holds the
/// colour's blue, green and red bytes, then 0xff.
pub proof fn law_trust_colours(t: WindowTrust, u: WindowTrust)
    ensures
        rgb_value(trust_color(t)) == match t {
            WindowTrust::Red => 0xf38ba8int,
            WindowTrust::Orange => 0xfab387int,
            WindowTrust::Yellow => 0xf9e2afint,
            WindowTrust::Green => 0xa6e3a1int,
            WindowTrust::Black => 0x11111bint,
        },
        t != u ==> trust_color(t) != trust_color(u),
        pixel_byte(trust_color(t), 0) as int == rgb_value(trust_color(t)) % 256,
        pixel_byte(trust_color(t), 1) as int == (rgb_value(trust_color(t)) / 256) % 256,
        pixel_byte(trust_color(t), 2) as int == rgb_value(trust_color(t)) / 65536,
        pixel_byte(trust_color(t), 3) == 0xff,
{
}

/// A character lowered as ASCII: `A` to `Z` become `a` to `z`.
pub open spec fn ascii_lower(c: char) -> char {
    if 'A' <= c && c <= 'Z' {
        ((c as u32) + 32) as char
    } else {
        c
    }
}

/// The setup prompt's answer is a yes exactly when the trimmed answer,
/// lowercased, is `y` or `yes`: every case variant with blanks around it.
///
/// No character outside `A` to `Z` lowercases to `y`, `e` or `s`, so ASCII
/// lowering decides this as full lowercasing does.
pub proof fn law_yes_in_any_case(answer: Seq<char>)
    ensures
        is_yes(answer) <==> (trim(answer).map_values(|c: char| ascii_lower(c)) == "y"@ || trim(
            answer,
        ).map_values(|c: char| ascii_lower(c)) == "yes"@),
{
    reveal_strlit("y");
    reveal_strlit("yes");
    let t = trim(answer);
    let l = t.map_values(|c: char| ascii_lower(c));
    assert(('y' as u32) == ('Y' as u32) + 32);
    assert(('e' as u32) == ('E' as u32) + 32);
    assert(('s' as u32) == ('S' as u32) + 32);
    assert forall|i: int| 0 <= i < t.len() implies (#[trigger] l[i] == 'y' <==> (t[i] == 'y' || t[i]
        == 'Y')) && (l[i] == 'e' <==> (t[i] == 'e' || t[i] == 'E')) && (l[i] == 's' <==> (t[i]
        == 's' || t[i] == 'S')) by {
        let c = t[i];
        if 'A' <= c && c <= 'Z' {
            assert(l[i] == ((c as u32) + 32) as char);
        }
    }
    assert(l.len() == t.len());
    if l == "y"@ {
        assert(l[0] == 'y');
        assert(is_letter(t[0], 'y', 'Y'));
    }
    if l == "yes"@ {
        assert(l[0] == 'y' && l[1] == 'e' && l[2] == 's');
        assert(is_letter(t[0], 'y', 'Y') && is_letter(t[1], 'e', 'E') && is_letter(t[2], 's', 'S'));
    }
    if is_yes(answer) {
        if t.len() == 1 {
            assert(l =~= "y"@);
        } else {
            assert(l =~= "yes"@);
        }
    }
}

} // verus!
