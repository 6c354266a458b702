use krypt::config::{
    KryptConfig, PolicyAction as ConfigAction, PolicyEntry, TrustLevel as ConfigTrust, VmEntry,
};
use krypt::policy::{PolicyAction, PolicyEngine, PolicyRule, TrustLevel};

/// An engine with five VMs across the trust levels.
fn engine_with_trust() -> PolicyEngine {
    let mut e = PolicyEngine::new();
    e.set_trust("vault".into(), TrustLevel::Black);
    e.set_trust("work".into(), TrustLevel::Green);
    e.set_trust("personal".into(), TrustLevel::Green);
    e.set_trust("social".into(), TrustLevel::Orange);
    e.set_trust("browser".into(), TrustLevel::Red);
    e
}

#[test]
fn explicit_allow_rule() {
    let mut e = engine_with_trust();
    e.add_rule(PolicyRule { source_vm: "work".into(), target_vm: "personal".into(), action: PolicyAction::Allow });
    assert_eq!(e.check("work", "personal"), &PolicyAction::Allow);
}

#[test]
fn explicit_deny_rule() {
    let mut e = engine_with_trust();
    e.add_rule(PolicyRule { source_vm: "browser".into(), target_vm: "vault".into(), action: PolicyAction::Deny });
    assert_eq!(e.check("browser", "vault"), &PolicyAction::Deny);
}

#[test]
fn explicit_askuser_rule() {
    let mut e = engine_with_trust();
    e.add_rule(PolicyRule { source_vm: "work".into(), target_vm: "vault".into(), action: PolicyAction::AskUser });
    assert_eq!(e.check("work", "vault"), &PolicyAction::AskUser);
}

#[test]
fn first_rule_wins_over_later_duplicate() {
    let mut e = engine_with_trust();
    e.add_rule(PolicyRule { source_vm: "work".into(), target_vm: "browser".into(), action: PolicyAction::Allow });
    e.add_rule(PolicyRule { source_vm: "work".into(), target_vm: "browser".into(), action: PolicyAction::Deny });
    assert_eq!(e.check("work", "browser"), &PolicyAction::Allow);
}

#[test]
fn explicit_rule_overrides_trust_level() {
    let mut e = engine_with_trust();
    e.add_rule(PolicyRule { source_vm: "browser".into(), target_vm: "vault".into(), action: PolicyAction::Allow });
    assert_eq!(e.check("browser", "vault"), &PolicyAction::Allow);
}

#[test]
fn higher_trust_to_lower_trust_askuser() {
    let e = engine_with_trust();
    assert_eq!(e.check("work", "browser"), &PolicyAction::AskUser);
}

#[test]
fn lower_trust_to_higher_trust_denied() {
    let e = engine_with_trust();
    assert_eq!(e.check("browser", "work"), &PolicyAction::Deny);
}

#[test]
fn same_trust_level_askuser() {
    let e = engine_with_trust();
    assert_eq!(e.check("work", "personal"), &PolicyAction::AskUser);
}

#[test]
fn red_cannot_reach_vault() {
    let e = engine_with_trust();
    assert_eq!(e.check("browser", "vault"), &PolicyAction::Deny);
}

#[test]
fn orange_cannot_reach_green() {
    let e = engine_with_trust();
    assert_eq!(e.check("social", "work"), &PolicyAction::Deny);
}

#[test]
fn black_can_reach_red_askuser() {
    let e = engine_with_trust();
    assert_eq!(e.check("vault", "browser"), &PolicyAction::AskUser);
}

#[test]
fn unknown_vms_both_default_to_red() {
    let e = PolicyEngine::new();
    assert_eq!(e.check("ghost-a", "ghost-b"), &PolicyAction::AskUser);
}

#[test]
fn unknown_source_against_known_green_denied() {
    let e = engine_with_trust();
    assert_eq!(e.check("ghost", "work"), &PolicyAction::Deny);
}

#[test]
fn known_green_against_unknown_target_askuser() {
    let e = engine_with_trust();
    assert_eq!(e.check("work", "ghost"), &PolicyAction::AskUser);
}

// --- further cases ---

#[test]
fn unknown_vm_trust_is_red() {
    let e = engine_with_trust();
    assert_eq!(e.get_trust("ghost"), &TrustLevel::Red);
    assert_eq!(e.get_trust("vault"), &TrustLevel::Black);
}

#[test]
fn set_trust_replaces_earlier_level() {
    let mut e = engine_with_trust();
    e.set_trust("browser".into(), TrustLevel::Black);
    assert_eq!(e.get_trust("browser"), &TrustLevel::Black);
    assert_eq!(e.check("browser", "vault"), &PolicyAction::AskUser);
}

#[test]
fn trust_level_names_and_ranks() {
    let all = [TrustLevel::Red, TrustLevel::Orange, TrustLevel::Yellow, TrustLevel::Green, TrustLevel::Black];
    let names: Vec<&str> = all.iter().map(|t| t.to_str()).collect();
    assert_eq!(names, vec!["red", "orange", "yellow", "green", "black"]);
    let ranks: Vec<u8> = all.iter().map(|t| t.rank()).collect();
    assert_eq!(ranks, vec![0, 1, 2, 3, 4]);
}

fn entry(name: &str, trust: ConfigTrust) -> VmEntry {
    VmEntry {
        name: name.into(),
        memory_mb: 512,
        vcpus: 1,
        kernel: "/boot/vmlinuz".into(),
        ramdisk: None,
        root_disk: None,
        trust_level: trust,
    }
}

#[test]
fn load_from_config_sets_levels_and_rules() {
    let cfg = KryptConfig {
        vms: vec![entry("work", ConfigTrust::Green), entry("vault", ConfigTrust::Black)],
        policy: vec![PolicyEntry { source: "vault".into(), target: "work".into(), action: ConfigAction::Ask }],
        ..Default::default()
    };
    let mut e = PolicyEngine::default();
    e.load_from_config(&cfg);
    assert_eq!(e.get_trust("work"), &TrustLevel::Green);
    assert_eq!(e.get_trust("vault"), &TrustLevel::Black);
    assert_eq!(e.check("vault", "work"), &PolicyAction::AskUser);
    assert_eq!(e.check("work", "vault"), &PolicyAction::Deny);
}

#[test]
fn map_action_ask_is_askuser() {
    assert_eq!(krypt::policy::map_action(ConfigAction::Ask), PolicyAction::AskUser);
    assert_eq!(krypt::policy::map_action(ConfigAction::Allow), PolicyAction::Allow);
    assert_eq!(krypt::policy::map_trust(ConfigTrust::Yellow), TrustLevel::Yellow);
}

#[test]
fn load_validated_refuses_unknown_policy_vm_and_keeps_engine() {
    let bad = KryptConfig {
        vms: vec![entry("work", ConfigTrust::Green)],
        policy: vec![PolicyEntry { source: "work".into(), target: "ghost".into(), action: ConfigAction::Allow }],
        ..Default::default()
    };
    let mut e = PolicyEngine::default();
    e.set_trust("vault".into(), TrustLevel::Black);
    let r = e.load_validated(&bad);
    assert!(matches!(r, Err(krypt::config::ConfigError::UnknownPolicyVm(ref n)) if n == "ghost"));
    assert_eq!(e.get_trust("work"), &TrustLevel::Red);
    assert_eq!(e.get_trust("vault"), &TrustLevel::Black);

    let good = KryptConfig {
        vms: vec![entry("work", ConfigTrust::Green), entry("vault", ConfigTrust::Black)],
        policy: vec![PolicyEntry { source: "work".into(), target: "vault".into(), action: ConfigAction::Allow }],
        ..Default::default()
    };
    assert!(e.load_validated(&good).is_ok());
    assert_eq!(e.get_trust("work"), &TrustLevel::Green);
    assert_eq!(e.check("work", "vault"), &PolicyAction::Allow);
}
