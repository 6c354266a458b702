use krypt::config::{
    default_log_level, is_valid_serial, is_valid_vm_name, AuthStickEntry, ConfigError, DaemonConfig,
    KryptConfig, PanicLevel, PolicyAction, PolicyEntry, TrustLevel, VmEntry,
};

fn vm(name: &str) -> VmEntry {
    VmEntry {
        name: name.into(),
        memory_mb: 1024,
        vcpus: 1,
        kernel: "/boot/vmlinuz".into(),
        ramdisk: None,
        root_disk: None,
        trust_level: TrustLevel::Red,
    }
}

fn pol(src: &str, tgt: &str) -> PolicyEntry {
    PolicyEntry { source: src.into(), target: tgt.into(), action: PolicyAction::Deny }
}

#[test]
fn validate_accepts_policy_referring_to_known_vms() {
    let cfg = KryptConfig {
        vms: vec![vm("work"), vm("vault")],
        policy: vec![pol("work", "vault")],
        ..Default::default()
    };
    assert!(cfg.validate().is_ok());
}

#[test]
fn validate_rejects_policy_with_unknown_source() {
    let cfg = KryptConfig {
        vms: vec![vm("work"), vm("vault")],
        policy: vec![pol("wrk", "vault")],
        ..Default::default()
    };
    match cfg.validate() {
        Err(ConfigError::UnknownPolicyVm(n)) => assert_eq!(n, "wrk"),
        other => panic!("expected UnknownPolicyVm, got {:?}", other),
    }
}

#[test]
fn validate_rejects_policy_with_unknown_target() {
    let cfg = KryptConfig {
        vms: vec![vm("work")],
        policy: vec![pol("work", "vaullt")],
        ..Default::default()
    };
    match cfg.validate() {
        Err(ConfigError::UnknownPolicyVm(n)) => assert_eq!(n, "vaullt"),
        other => panic!("expected UnknownPolicyVm, got {:?}", other),
    }
}

#[test]
fn validate_rejects_duplicate_vm_names() {
    let cfg = KryptConfig { vms: vec![vm("work"), vm("work")], ..Default::default() };
    match cfg.validate() {
        Err(ConfigError::DuplicateVmName(n)) => assert_eq!(n, "work"),
        other => panic!("expected DuplicateVmName, got {:?}", other),
    }
}

#[test]
fn validate_rejects_kernel_with_quote() {
    let mut bad = vm("work");
    bad.kernel = "/boot/vmlinuz\"".into();
    let cfg = KryptConfig { vms: vec![bad], ..Default::default() };
    match cfg.validate() {
        Err(ConfigError::InvalidPath { vm: v, field, .. }) => {
            assert_eq!(v, "work");
            assert_eq!(field, "kernel");
        }
        other => panic!("expected InvalidPath, got {:?}", other),
    }
}

#[test]
fn validate_rejects_root_disk_with_newline() {
    let mut bad = vm("work");
    bad.root_disk = Some("/dev/vg0/work\nbad".into());
    let cfg = KryptConfig { vms: vec![bad], ..Default::default() };
    match cfg.validate() {
        Err(ConfigError::InvalidPath { vm: v, field, .. }) => {
            assert_eq!(v, "work");
            assert_eq!(field, "root_disk");
        }
        other => panic!("expected InvalidPath, got {:?}", other),
    }
}

#[test]
fn validate_rejects_duplicate_stick_serials() {
    let cfg = KryptConfig {
        auth_sticks: vec![
            AuthStickEntry { serial: "AB12".into(), luks_slot: 1 },
            AuthStickEntry { serial: "AB12".into(), luks_slot: 2 },
        ],
        ..Default::default()
    };
    match cfg.validate() {
        Err(ConfigError::DuplicateStickSerial(s)) => assert_eq!(s, "AB12"),
        other => panic!("expected DuplicateStickSerial, got {:?}", other),
    }
}

// --- further cases ---

#[test]
fn validate_rejects_uppercase_vm_name() {
    let cfg = KryptConfig { vms: vec![vm("Work")], ..Default::default() };
    match cfg.validate() {
        Err(ConfigError::InvalidVmName(n)) => assert_eq!(n, "Work"),
        other => panic!("expected InvalidVmName, got {:?}", other),
    }
}

#[test]
fn validate_rejects_serial_with_space() {
    let cfg = KryptConfig {
        auth_sticks: vec![AuthStickEntry { serial: "AB 12".into(), luks_slot: 1 }],
        ..Default::default()
    };
    match cfg.validate() {
        Err(ConfigError::InvalidStickSerial(s)) => assert_eq!(s, "AB 12"),
        other => panic!("expected InvalidStickSerial, got {:?}", other),
    }
}

#[test]
fn validate_rejects_ramdisk_with_quote_and_reports_value() {
    let mut bad = vm("vault");
    bad.ramdisk = Some("/boot/initrd\"x".into());
    let cfg = KryptConfig { vms: vec![bad], ..Default::default() };
    match cfg.validate() {
        Err(ConfigError::InvalidPath { vm: v, field, value }) => {
            assert_eq!(v, "vault");
            assert_eq!(field, "ramdisk");
            assert_eq!(value, "/boot/initrd\"x");
        }
        other => panic!("expected InvalidPath, got {:?}", other),
    }
}

#[test]
fn validate_rejects_policy_name_that_is_invalid_before_unknown() {
    let cfg = KryptConfig {
        vms: vec![vm("work")],
        policy: vec![pol("work", "Bad Name")],
        ..Default::default()
    };
    match cfg.validate() {
        Err(ConfigError::InvalidVmName(n)) => assert_eq!(n, "Bad Name"),
        other => panic!("expected InvalidVmName, got {:?}", other),
    }
}

#[test]
fn vm_checks_come_before_stick_checks() {
    let cfg = KryptConfig {
        vms: vec![vm("x").clone(), vm("x")],
        auth_sticks: vec![AuthStickEntry { serial: "".into(), luks_slot: 0 }],
        ..Default::default()
    };
    assert!(matches!(cfg.validate(), Err(ConfigError::DuplicateVmName(_))));
}

#[test]
fn vm_name_and_serial_rules() {
    assert!(is_valid_vm_name("sys-gui_2"));
    assert!(!is_valid_vm_name(""));
    assert!(is_valid_vm_name(&"a".repeat(32)));
    assert!(!is_valid_vm_name(&"a".repeat(33)));
    assert!(!is_valid_vm_name("wörk"));
    assert!(is_valid_serial("ABC1234567"));
    assert!(!is_valid_serial(&"A".repeat(65)));
    assert!(is_valid_serial("A\"B"));
    assert!(!is_valid_serial(""));
    assert!(!is_valid_serial("AB\n"));
}

#[test]
fn defaults_are_info_and_suspend() {
    assert_eq!(default_log_level(), "info");
    let d = DaemonConfig::default();
    assert_eq!(d.log_level, "info");
    assert_eq!(d.panic_level, PanicLevel::Suspend);
    assert_eq!(TrustLevel::default(), TrustLevel::Red);
    let cfg = KryptConfig::default();
    assert!(cfg.vms.is_empty() && cfg.auth_sticks.is_empty() && cfg.policy.is_empty());
    assert!(cfg.validate().is_ok());
}
