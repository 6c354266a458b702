//! The policy engine: which VM may talk to which.
//!
//! Trust levels, from least to most trusted:
//!   red (browser, unknown devices), orange (gaming, social),
//!   yellow (untrusted work), green (work, personal), black (vault).
//!
//! An explicit rule for a pair of VMs decides first; the first rule added
//! for a pair wins. Without a rule, a VM may ask to reach a VM of the same
//! or a lower trust level and is denied one of a higher level. A VM without
//! a trust level counts as red.

use vstd::prelude::*;
use crate::config;
use crate::names::NameMap;

verus! {

/// The trust level of a VM.
#[derive(Debug, Clone, Copy, PartialEq, Eq, Structural, PartialOrd, Ord)]
pub enum TrustLevel {
    Red,
    Orange,
    Yellow,
    Green,
    Black,
}

/// The place of a trust level in the order red < orange < yellow < green <
/// black.
pub open spec fn rank(t: TrustLevel) -> nat {
    match t {
        TrustLevel::Red => 0,
        TrustLevel::Orange => 1,
        TrustLevel::Yellow => 2,
        TrustLevel::Green => 3,
        TrustLevel::Black => 4,
    }
}

/// The name of a trust level as the configuration and the IPC protocol
/// write it.
pub open spec fn trust_name(t: TrustLevel) -> Seq<char> {
    match t {
        TrustLevel::Red => seq!['r', 'e', 'd'],
        TrustLevel::Orange => seq!['o', 'r', 'a', 'n', 'g', 'e'],
        TrustLevel::Yellow => seq!['y', 'e', 'l', 'l', 'o', 'w'],
        TrustLevel::Green => seq!['g', 'r', 'e', 'e', 'n'],
        TrustLevel::Black => seq!['b', 'l', 'a', 'c', 'k'],
    }
}

impl TrustLevel {
    /// The name of the level: `"red"`, `"orange"`, `"yellow"`, `"green"` or
    /// `"black"`.
    pub fn to_str(&self) -> (r: &'static str)
        ensures
            r@ == trust_name(*self),
    {
        proof {
            reveal_strlit("red");
            reveal_strlit("orange");
            reveal_strlit("yellow");
            reveal_strlit("green");
            reveal_strlit("black");
        }
        match self {
            TrustLevel::Red => "red",
            TrustLevel::Orange => "orange",
            TrustLevel::Yellow => "yellow",
            TrustLevel::Green => "green",
            TrustLevel::Black => "black",
        }
    }

    /// The place of the level in the order, red being 0 and black 4.
    pub fn rank(&self) -> (r: u8)
        ensures
            r as nat == rank(*self),
    {
        match self {
            TrustLevel::Red => 0,
            TrustLevel::Orange => 1,
            TrustLevel::Yellow => 2,
            TrustLevel::Green => 3,
            TrustLevel::Black => 4,
        }
    }
}

/// An explicit rule: what `source_vm` may do to `target_vm`.
#[derive(Debug)]
pub struct PolicyRule {
    pub source_vm: String,
    pub target_vm: String,
    pub action: PolicyAction,
}

/// The decision for a request between two VMs.
#[derive(Debug, Clone, Copy, PartialEq, Eq, Structural)]
pub enum PolicyAction {
    Allow,
    Deny,
    AskUser,
}

/// A rule as data: source, target, action.
pub type RuleView = (Seq<char>, Seq<char>, PolicyAction);

/// The action of the first rule in `rules` for the pair `source`, `target`.
pub open spec fn first_rule(rules: Seq<RuleView>, source: Seq<char>, target: Seq<char>) -> Option<
    PolicyAction,
>
    decreases rules.len(),
{
    if rules.len() == 0 {
        None
    } else if rules[0].0 == source && rules[0].1 == target {
        Some(rules[0].2)
    } else {
        first_rule(rules.drop_first(), source, target)
    }
}

/// The trust level of `vm` under `trust`: red for a VM it does not know.
pub open spec fn trust_of(trust: Map<Seq<char>, TrustLevel>, vm: Seq<char>) -> TrustLevel {
    if trust.contains_key(vm) {
        trust[vm]
    } else {
        TrustLevel::Red
    }
}

/// The decision for `source` acting on `target`: the first explicit rule
/// for the pair, else a request upward in trust is denied and any other is
/// put to the user.
pub open spec fn decide(
    rules: Seq<RuleView>,
    trust: Map<Seq<char>, TrustLevel>,
    source: Seq<char>,
    target: Seq<char>,
) -> PolicyAction {
    match first_rule(rules, source, target) {
        Some(a) => a,
        None => if rank(trust_of(trust, source)) >= rank(trust_of(trust, target)) {
            PolicyAction::AskUser
        } else {
            PolicyAction::Deny
        },
    }
}

/// The rule as data.
pub open spec fn rule_view(r: PolicyRule) -> RuleView {
    (r.source_vm@, r.target_vm@, r.action)
}

/// The policy engine: explicit rules in the order they were added, and the
/// trust level of each known VM.
pub struct PolicyEngine {
    rules: Vec<PolicyRule>,
    trust_map: NameMap<TrustLevel>,
}

impl PolicyEngine {
    /// The explicit rules, in the order they were added.
    pub closed spec fn rules(&self) -> Seq<RuleView> {
        self.rules@.map_values(|r: PolicyRule| rule_view(r))
    }

    /// The trust level of each VM that has one.
    pub closed spec fn trust(&self) -> Map<Seq<char>, TrustLevel> {
        self.trust_map.map()
    }

    /// An engine without rules and without trust levels.
    pub fn new() -> (e: Self)
        ensures
            e.rules() == Seq::<RuleView>::empty(),
            e.trust() == Map::<Seq<char>, TrustLevel>::empty(),
    {
        let e = PolicyEngine { rules: Vec::new(), trust_map: NameMap::new() };
        assert(e.rules@.map_values(|r: PolicyRule| rule_view(r)) =~= Seq::<RuleView>::empty());
        e
    }

    /// Appends an explicit rule; rules added earlier keep precedence.
    pub fn add_rule(&mut self, rule: PolicyRule)
        ensures
            final(self).rules() == old(self).rules().push(rule_view(rule)),
            final(self).trust() == old(self).trust(),
    {
        let ghost r = rule;
        self.rules.push(rule);
        assert(self.rules@.map_values(|r: PolicyRule| rule_view(r)) =~= old(self).rules@.map_values(
            |r: PolicyRule| rule_view(r),
        ).push(rule_view(r)));
    }

    /// Sets the trust level of `vm`, replacing the one it had.
    pub fn set_trust(&mut self, vm: String, level: TrustLevel)
        ensures
            final(self).trust() == old(self).trust().insert(vm@, level),
            final(self).rules() == old(self).rules(),
    {
        self.trust_map.insert(vm, level);
    }

    /// The trust level of `vm`; a VM without one counts as red, the most
    /// restrictive level.
    pub fn get_trust(&self, vm: &str) -> (r: &TrustLevel)
        ensures
            *r == trust_of(self.trust(), vm@),
    {
        match self.trust_map.get(vm) {
            Some(t) => t,
            None => &TrustLevel::Red,
        }
    }

    /// The decision for `source` acting on `target`.
    ///
    /// The first explicit rule for the pair decides. Without one, the trust
    /// levels decide: a VM may not reach one of higher trust (deny); any
    /// other request is put to the user.
    pub fn check(&self, source: &str, target: &str) -> (r: &PolicyAction)
        ensures
            *r == decide(self.rules(), self.trust(), source@, target@),
    {
        let src = source.to_owned();
        let tgt = target.to_owned();
        let ghost rules = self.rules();
        let mut i: usize = 0;
        assert(rules.skip(0) =~= rules);
        while i < self.rules.len()
            invariant
                i <= self.rules@.len(),
                rules == self.rules(),
                rules.len() == self.rules@.len(),
                src@ == source@,
                tgt@ == target@,
                first_rule(rules, source@, target@) == first_rule(
                    rules.skip(i as int),
                    source@,
                    target@,
                ),
            decreases self.rules@.len() - i,
        {
            let rule = &self.rules[i];
            assert(rules.skip(i as int)[0] == rule_view(*rule));
            if rule.source_vm == src && rule.target_vm == tgt {
                return &rule.action;
            }
            assert(rules.skip(i as int).drop_first() =~= rules.skip(i + 1));
            i = i + 1;
        }
        let src_trust = self.get_trust(source);
        let tgt_trust = self.get_trust(target);
        if src_trust.rank() >= tgt_trust.rank() {
            &PolicyAction::AskUser
        } else {
            &PolicyAction::Deny
        }
    }

    /// Loads the trust levels and the rules of a parsed configuration: each
    /// VM gets its configured level, and the policy entries are appended as
    /// rules in their order.
    pub fn load_from_config(&mut self, cfg: &config::KryptConfig)
        ensures
            final(self).trust() == with_vm_trust(old(self).trust(), cfg.vms@),
            final(self).rules() == old(self).rules() + cfg.policy@.map_values(
                |e: config::PolicyEntry| entry_rule(e),
            ),
    {
        let ghost trust0 = self.trust();
        let ghost rules0 = self.rules();
        let mut i: usize = 0;
        while i < cfg.vms.len()
            invariant
                i <= cfg.vms@.len(),
                self.trust() == with_vm_trust(trust0, cfg.vms@.take(i as int)),
                self.rules() == rules0,
            decreases cfg.vms@.len() - i,
        {
            let vm = &cfg.vms[i];
            self.set_trust(vm.name.clone(), map_trust(vm.trust_level));
            assert(cfg.vms@.take(i + 1).drop_last() =~= cfg.vms@.take(i as int));
            i = i + 1;
        }
        assert(cfg.vms@.take(i as int) =~= cfg.vms@);
        let ghost entries = cfg.policy@.map_values(|e: config::PolicyEntry| entry_rule(e));
        let mut j: usize = 0;
        while j < cfg.policy.len()
            invariant
                j <= cfg.policy@.len(),
                entries == cfg.policy@.map_values(|e: config::PolicyEntry| entry_rule(e)),
                self.trust() == with_vm_trust(trust0, cfg.vms@),
                self.rules() == rules0 + entries.take(j as int),
            decreases cfg.policy@.len() - j,
        {
            let entry = &cfg.policy[j];
            self.add_rule(
                PolicyRule {
                    source_vm: entry.source.clone(),
                    target_vm: entry.target.clone(),
                    action: map_action(entry.action),
                },
            );
            assert(rules0 + entries.take(j + 1) =~= (rules0 + entries.take(j as int)).push(
                entries[j as int],
            ));
            j = j + 1;
        }
        assert(entries.take(j as int) =~= entries);
    }

    /// Loads a configuration only once it passes `validate`, as a freshly
    /// read configuration file is: a refused configuration leaves the
    /// engine unchanged and comes back as the first fault.
    pub fn load_validated(&mut self, cfg: &config::KryptConfig) -> (r: Result<(), config::ConfigError>)
        ensures
            r is Ok <==> config::config_fault(cfg) is None,
            r matches Err(e) ==> config::error_fault(e) == config::config_fault(cfg),
            r is Ok ==> final(self).trust() == with_vm_trust(old(self).trust(), cfg.vms@),
            r is Ok ==> final(self).rules() == old(self).rules() + cfg.policy@.map_values(
                |e: config::PolicyEntry| entry_rule(e),
            ),
            r is Err ==> final(self).trust() == old(self).trust(),
            r is Err ==> final(self).rules() == old(self).rules(),
    {
        match cfg.validate() {
            Ok(()) => {
                self.load_from_config(cfg);
                Ok(())
            },
            Err(e) => Err(e),
        }
    }
}

/// The trust map after the levels of `vms` are set in order.
pub open spec fn with_vm_trust(m: Map<Seq<char>, TrustLevel>, vms: Seq<config::VmEntry>) -> Map<
    Seq<char>,
    TrustLevel,
>
    decreases vms.len(),
{
    if vms.len() == 0 {
        m
    } else {
        with_vm_trust(m, vms.drop_last()).insert(
            vms.last().name@,
            trust_from_config(vms.last().trust_level),
        )
    }
}

/// The policy level of a configured level.
pub open spec fn trust_from_config(t: config::TrustLevel) -> TrustLevel {
    match t {
        config::TrustLevel::Red => TrustLevel::Red,
        config::TrustLevel::Orange => TrustLevel::Orange,
        config::TrustLevel::Yellow => TrustLevel::Yellow,
        config::TrustLevel::Green => TrustLevel::Green,
        config::TrustLevel::Black => TrustLevel::Black,
    }
}

/// The policy action of a configured action; `ask` puts the request to the
/// user.
pub open spec fn action_from_config(a: config::PolicyAction) -> PolicyAction {
    match a {
        config::PolicyAction::Allow => PolicyAction::Allow,
        config::PolicyAction::Deny => PolicyAction::Deny,
        config::PolicyAction::Ask => PolicyAction::AskUser,
    }
}

/// The rule that a configured policy entry stands for.
pub open spec fn entry_rule(e: config::PolicyEntry) -> RuleView {
    (e.source@, e.target@, action_from_config(e.action))
}

/// The policy level of a configured level.
pub fn map_trust(t: config::TrustLevel) -> (r: TrustLevel)
    ensures
        r == trust_from_config(t),
{
    match t {
        config::TrustLevel::Red => TrustLevel::Red,
        config::TrustLevel::Orange => TrustLevel::Orange,
        config::TrustLevel::Yellow => TrustLevel::Yellow,
        config::TrustLevel::Green => TrustLevel::Green,
        config::TrustLevel::Black => TrustLevel::Black,
    }
}

/// The policy action of a configured action.
pub fn map_action(a: config::PolicyAction) -> (r: PolicyAction)
    ensures
        r == action_from_config(a),
{
    match a {
        config::PolicyAction::Allow => PolicyAction::Allow,
        config::PolicyAction::Deny => PolicyAction::Deny,
        config::PolicyAction::Ask => PolicyAction::AskUser,
    }
}

impl Default for PolicyEngine {
    fn default() -> (e: Self)
        ensures
            e.rules() == Seq::<RuleView>::empty(),
            e.trust() == Map::<Seq<char>, TrustLevel>::empty(),
    {
        Self::new()
    }
}

} // verus!
