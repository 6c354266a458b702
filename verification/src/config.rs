//! The daemon configuration (`/etc/krypt/daemon.toml`) and its validation.
//!
//! Reading the file and parsing the TOML happen at the edge; this module
//! holds the parsed configuration and the checks that must pass before the
//! daemon acts on it.

use vstd::prelude::*;
use crate::text::chars_of;

verus! {

/// Why a configuration was refused.
#[derive(Debug)]
pub enum ConfigError {
    /// The file could not be read.
    Io(std::io::Error),
    /// The file is no valid TOML for this configuration.
    Parse(toml::de::Error),
    /// A VM name that is not 1 to 32 characters of `[a-z0-9_-]`.
    InvalidVmName(String),
    /// A stick serial that is not 1 to 64 printable ASCII characters.
    InvalidStickSerial(String),
    /// A policy rule names a VM that no `[[vms]]` block defines.
    UnknownPolicyVm(String),
    /// Two `[[vms]]` blocks with the same name.
    DuplicateVmName(String),
    /// Two `[[auth_sticks]]` blocks with the same serial.
    DuplicateStickSerial(String),
    /// A path of a VM holds a quote or a newline.
    InvalidPath { vm: String, field: &'static str, value: String },
}

/// The complete daemon configuration.
#[derive(Debug)]
pub struct KryptConfig {
    pub daemon: DaemonConfig,
    pub auth_sticks: Vec<AuthStickEntry>,
    pub vms: Vec<VmEntry>,
    pub policy: Vec<PolicyEntry>,
}

/// The `[daemon]` section.
#[derive(Debug)]
pub struct DaemonConfig {
    pub log_level: String,
    pub panic_level: PanicLevel,
}

/// What happens when the auth stick is pulled.
#[derive(Debug, Clone, Copy, PartialEq, Eq, Structural)]
pub enum PanicLevel {
    /// Lock the desktop.
    Lock,
    /// Suspend the system.
    Suspend,
    /// Power off at once.
    Nuke,
}

/// A registered auth stick.
#[derive(Debug, Clone)]
pub struct AuthStickEntry {
    pub serial: String,
    /// The LUKS2 key slot of this stick.
    pub luks_slot: u32,
}

/// A VM definition.
///
/// `ramdisk` and `root_disk` hold the configured path where it is valid
/// UTF-8; the checks of `validate` apply to such paths only.
#[derive(Debug, Clone)]
pub struct VmEntry {
    pub name: String,
    pub memory_mb: u32,
    pub vcpus: u32,
    pub kernel: String,
    pub ramdisk: Option<String>,
    pub root_disk: Option<String>,
    pub trust_level: TrustLevel,
}

/// The trust level of a VM as the configuration writes it.
#[derive(Debug, Clone, Copy, PartialEq, Eq, Structural)]
pub enum TrustLevel {
    Red,
    Orange,
    Yellow,
    Green,
    Black,
}

/// An explicit policy rule between two VMs.
#[derive(Debug, Clone)]
pub struct PolicyEntry {
    pub source: String,
    pub target: String,
    pub action: PolicyAction,
}

/// The action of a policy rule as the configuration writes it.
#[derive(Debug, Clone, Copy, PartialEq, Eq, Structural)]
pub enum PolicyAction {
    Allow,
    Deny,
    Ask,
}

impl Default for PanicLevel {
    fn default() -> (r: Self)
        ensures
            r == PanicLevel::Suspend,
    {
        PanicLevel::Suspend
    }
}

impl Default for TrustLevel {
    fn default() -> (r: Self)
        ensures
            r == TrustLevel::Red,
    {
        TrustLevel::Red
    }
}

/// `"info"`, the log level when the configuration names none.
pub open spec fn info_level() -> Seq<char> {
    seq!['i', 'n', 'f', 'o']
}

/// The log level when the configuration names none: `"info"`.
pub fn default_log_level() -> (r: String)
    ensures
        r@ == info_level(),
{
    proof {
        reveal_strlit("info");
    }
    String::from_str("info")
}

impl Default for DaemonConfig {
    fn default() -> (r: Self)
        ensures
            r.log_level@ == info_level(),
            r.panic_level == PanicLevel::Suspend,
    {
        DaemonConfig { log_level: default_log_level(), panic_level: PanicLevel::default() }
    }
}

impl Default for KryptConfig {
    fn default() -> (r: Self)
        ensures
            r.daemon.log_level@ == info_level(),
            r.daemon.panic_level == PanicLevel::Suspend,
            r.auth_sticks@.len() == 0,
            r.vms@.len() == 0,
            r.policy@.len() == 0,
    {
        KryptConfig {
            daemon: DaemonConfig::default(),
            auth_sticks: Vec::new(),
            vms: Vec::new(),
            policy: Vec::new(),
        }
    }
}

// ---------------------------------------------------------------------------
// The rules of a valid configuration
// ---------------------------------------------------------------------------

/// A character a VM name may hold: `[a-z0-9_-]`.
pub open spec fn is_name_char(c: char) -> bool {
    ('a' <= c && c <= 'z') || ('0' <= c && c <= '9') || c == '-' || c == '_'
}

/// A valid VM name: 1 to 32 characters of `[a-z0-9_-]`.
pub open spec fn valid_vm_name(s: Seq<char>) -> bool {
    0 < s.len() <= 32 && forall|i: int| 0 <= i < s.len() ==> is_name_char(#[trigger] s[i])
}

/// A printable ASCII character other than the space.
pub open spec fn is_graphic(c: char) -> bool {
    '!' <= c && c <= '~'
}

/// A valid stick serial: 1 to 64 printable ASCII characters, no blanks.
pub open spec fn valid_serial(s: Seq<char>) -> bool {
    0 < s.len() <= 64 && forall|i: int| 0 <= i < s.len() ==> is_graphic(#[trigger] s[i])
}

/// A path that cannot go into the generated xl config: it holds a double
/// quote or a newline.
pub open spec fn is_bad_path(s: Seq<char>) -> bool {
    exists|i: int| 0 <= i < s.len() && (#[trigger] s[i] == '"' || s[i] == '\n')
}

/// The first fault of a configuration, as data.
pub enum ConfigFault {
    InvalidVmName(Seq<char>),
    InvalidStickSerial(Seq<char>),
    UnknownPolicyVm(Seq<char>),
    DuplicateVmName(Seq<char>),
    DuplicateStickSerial(Seq<char>),
    InvalidPath(Seq<char>, Seq<char>, Seq<char>),
}

/// `"kernel"`.
pub open spec fn kernel_field() -> Seq<char> {
    seq!['k', 'e', 'r', 'n', 'e', 'l']
}

/// `"ramdisk"`.
pub open spec fn ramdisk_field() -> Seq<char> {
    seq!['r', 'a', 'm', 'd', 'i', 's', 'k']
}

/// `"root_disk"`.
pub open spec fn root_disk_field() -> Seq<char> {
    seq!['r', 'o', 'o', 't', '_', 'd', 'i', 's', 'k']
}

/// The fault of an optional path of the VM `vm`.
pub open spec fn path_fault(vm: Seq<char>, field: Seq<char>, p: Option<String>) -> Option<
    ConfigFault,
> {
    match p {
        Some(s) => if is_bad_path(s@) {
            Some(ConfigFault::InvalidPath(vm, field, s@))
        } else {
            None
        },
        None => None,
    }
}

/// The fault of the `i`-th VM of `vms`, the ones before it being sound.
pub open spec fn vm_fault(vms: Seq<VmEntry>, i: int) -> Option<ConfigFault> {
    let vm = vms[i];
    if !valid_vm_name(vm.name@) {
        Some(ConfigFault::InvalidVmName(vm.name@))
    } else if exists|j: int| 0 <= j < i && (#[trigger] vms[j]).name@ == vm.name@ {
        Some(ConfigFault::DuplicateVmName(vm.name@))
    } else if is_bad_path(vm.kernel@) {
        Some(ConfigFault::InvalidPath(vm.name@, kernel_field(), vm.kernel@))
    } else if path_fault(vm.name@, ramdisk_field(), vm.ramdisk) is Some {
        path_fault(vm.name@, ramdisk_field(), vm.ramdisk)
    } else {
        path_fault(vm.name@, root_disk_field(), vm.root_disk)
    }
}

/// The first fault among the VMs from the `i`-th on.
pub open spec fn vms_fault_from(vms: Seq<VmEntry>, i: int) -> Option<ConfigFault>
    decreases vms.len() - i,
{
    if i < 0 || i >= vms.len() {
        None
    } else {
        match vm_fault(vms, i) {
            Some(f) => Some(f),
            None => vms_fault_from(vms, i + 1),
        }
    }
}

/// The fault of the `i`-th stick of `sticks`, the ones before it being sound.
pub open spec fn stick_fault(sticks: Seq<AuthStickEntry>, i: int) -> Option<ConfigFault> {
    let s = sticks[i];
    if !valid_serial(s.serial@) {
        Some(ConfigFault::InvalidStickSerial(s.serial@))
    } else if exists|j: int| 0 <= j < i && (#[trigger] sticks[j]).serial@ == s.serial@ {
        Some(ConfigFault::DuplicateStickSerial(s.serial@))
    } else {
        None
    }
}

/// The first fault among the sticks from the `i`-th on.
pub open spec fn sticks_fault_from(sticks: Seq<AuthStickEntry>, i: int) -> Option<ConfigFault>
    decreases sticks.len() - i,
{
    if i < 0 || i >= sticks.len() {
        None
    } else {
        match stick_fault(sticks, i) {
            Some(f) => Some(f),
            None => sticks_fault_from(sticks, i + 1),
        }
    }
}

/// Whether some VM of `vms` is called `name`.
pub open spec fn is_known_vm(vms: Seq<VmEntry>, name: Seq<char>) -> bool {
    exists|j: int| 0 <= j < vms.len() && (#[trigger] vms[j]).name@ == name
}

/// The fault of one policy rule.
pub open spec fn rule_fault(vms: Seq<VmEntry>, r: PolicyEntry) -> Option<ConfigFault> {
    if !valid_vm_name(r.source@) {
        Some(ConfigFault::InvalidVmName(r.source@))
    } else if !valid_vm_name(r.target@) {
        Some(ConfigFault::InvalidVmName(r.target@))
    } else if !is_known_vm(vms, r.source@) {
        Some(ConfigFault::UnknownPolicyVm(r.source@))
    } else if !is_known_vm(vms, r.target@) {
        Some(ConfigFault::UnknownPolicyVm(r.target@))
    } else {
        None
    }
}

/// The first fault among the policy rules from the `i`-th on.
pub open spec fn rules_fault_from(vms: Seq<VmEntry>, rules: Seq<PolicyEntry>, i: int) -> Option<
    ConfigFault,
>
    decreases rules.len() - i,
{
    if i < 0 || i >= rules.len() {
        None
    } else {
        match rule_fault(vms, rules[i]) {
            Some(f) => Some(f),
            None => rules_fault_from(vms, rules, i + 1),
        }
    }
}

/// The first fault of a configuration: the VMs are checked in order, then
/// the sticks, then the policy rules.
pub open spec fn config_fault(cfg: &KryptConfig) -> Option<ConfigFault> {
    match vms_fault_from(cfg.vms@, 0) {
        Some(f) => Some(f),
        None => match sticks_fault_from(cfg.auth_sticks@, 0) {
            Some(f) => Some(f),
            None => rules_fault_from(cfg.vms@, cfg.policy@, 0),
        },
    }
}

/// The fault that a `ConfigError` reports; `None` for the errors of
/// reading and parsing.
pub open spec fn error_fault(e: ConfigError) -> Option<ConfigFault> {
    match e {
        ConfigError::InvalidVmName(s) => Some(ConfigFault::InvalidVmName(s@)),
        ConfigError::InvalidStickSerial(s) => Some(ConfigFault::InvalidStickSerial(s@)),
        ConfigError::UnknownPolicyVm(s) => Some(ConfigFault::UnknownPolicyVm(s@)),
        ConfigError::DuplicateVmName(s) => Some(ConfigFault::DuplicateVmName(s@)),
        ConfigError::DuplicateStickSerial(s) => Some(ConfigFault::DuplicateStickSerial(s@)),
        ConfigError::InvalidPath { vm, field, value } => Some(
            ConfigFault::InvalidPath(vm@, field@, value@),
        ),
        _ => None,
    }
}

// ---------------------------------------------------------------------------
// The checks
// ---------------------------------------------------------------------------

/// Whether `name` is a valid VM name: 1 to 32 characters of `[a-z0-9_-]`.
pub fn is_valid_vm_name(name: &str) -> (b: bool)
    ensures
        b == valid_vm_name(name@),
{
    let v = chars_of(name);
    if v.len() == 0 || v.len() > 32 {
        return false;
    }
    let mut i: usize = 0;
    while i < v.len()
        invariant
            i <= v.len(),
            v@ == name@,
            forall|k: int| 0 <= k < i ==> is_name_char(#[trigger] v@[k]),
        decreases v.len() - i,
    {
        let c = v[i];
        if !(('a' <= c && c <= 'z') || ('0' <= c && c <= '9') || c == '-' || c == '_') {
            return false;
        }
        i = i + 1;
    }
    true
}

/// Whether `s` is a valid stick serial: 1 to 64 printable ASCII
/// characters without blanks.
pub fn is_valid_serial(s: &str) -> (b: bool)
    ensures
        b == valid_serial(s@),
{
    let v = chars_of(s);
    if v.len() == 0 || v.len() > 64 {
        return false;
    }
    let mut i: usize = 0;
    while i < v.len()
        invariant
            i <= v.len(),
            v@ == s@,
            forall|k: int| 0 <= k < i ==> is_graphic(#[trigger] v@[k]),
        decreases v.len() - i,
    {
        let c = v[i];
        if !('!' <= c && c <= '~') {
            return false;
        }
        i = i + 1;
    }
    true
}

/// Refuses a path of the VM `vm` that holds a double quote or a newline:
/// it would break the generated xl config. An empty path is fine.
pub fn check_path(vm: &str, field: &'static str, value: &str) -> (r: Result<(), ConfigError>)
    ensures
        is_bad_path(value@) ==> (r matches Err(ConfigError::InvalidPath { vm: v, field: f, value: x })
            && v@ == vm@ && f@ == field@ && x@ == value@),
        !is_bad_path(value@) ==> r is Ok,
{
    let v = chars_of(value);
    let mut i: usize = 0;
    while i < v.len()
        invariant
            i <= v.len(),
            v@ == value@,
            forall|k: int| 0 <= k < i ==> !(#[trigger] v@[k] == '"' || v@[k] == '\n'),
        decreases v.len() - i,
    {
        if v[i] == '"' || v[i] == '\n' {
            assert(v@[i as int] == '"' || v@[i as int] == '\n');
            return Err(
                ConfigError::InvalidPath { vm: vm.to_owned(), field, value: value.to_owned() },
            );
        }
        i = i + 1;
    }
    Ok(())
}

fn kernel_str() -> (r: &'static str)
    ensures
        r@ == kernel_field(),
{
    proof {
        reveal_strlit("kernel");
    }
    "kernel"
}

fn ramdisk_str() -> (r: &'static str)
    ensures
        r@ == ramdisk_field(),
{
    proof {
        reveal_strlit("ramdisk");
    }
    "ramdisk"
}

fn root_disk_str() -> (r: &'static str)
    ensures
        r@ == root_disk_field(),
{
    proof {
        reveal_strlit("root_disk");
    }
    "root_disk"
}

/// Whether some VM of `vms` is called `name`.
fn knows_vm(vms: &Vec<VmEntry>, name: &String) -> (b: bool)
    ensures
        b == is_known_vm(vms@, name@),
{
    let mut j: usize = 0;
    while j < vms.len()
        invariant
            j <= vms.len(),
            forall|k: int| 0 <= k < j ==> (#[trigger] vms@[k]).name@ != name@,
        decreases vms.len() - j,
    {
        if vms[j].name == *name {
            return true;
        }
        j = j + 1;
    }
    false
}

impl KryptConfig {
    /// Checks VM names, stick serials, VM paths and policy rules, so that a
    /// typo in `daemon.toml` fails at start rather than at `xl create` or at
    /// a USB match. Policy rules must name VMs defined in `[[vms]]`.
    ///
    /// The VMs are checked in order (name, uniqueness, kernel, ramdisk, root
    /// disk), then the sticks (serial, uniqueness), then the rules (source
    /// and target names, then that both are defined); the first fault is
    /// returned.
    pub fn validate(&self) -> (r: Result<(), ConfigError>)
        ensures
            r is Ok <==> config_fault(self) is None,
            r matches Err(e) ==> error_fault(e) == config_fault(self),
    {
        let ghost vms = self.vms@;
        let mut i: usize = 0;
        while i < self.vms.len()
            invariant
                i <= vms.len(),
                vms == self.vms@,
                vms_fault_from(vms, 0) == vms_fault_from(vms, i as int),
            decreases vms.len() - i,
        {
            let vm = &self.vms[i];
            if !is_valid_vm_name(vm.name.as_str()) {
                return Err(ConfigError::InvalidVmName(vm.name.clone()));
            }
            let mut j: usize = 0;
            while j < i
                invariant
                    j <= i < vms.len(),
                    vms == self.vms@,
                    *vm == vms[i as int],
                    valid_vm_name(vm.name@),
                    vms_fault_from(vms, 0) == vms_fault_from(vms, i as int),
                    forall|k: int| 0 <= k < j ==> (#[trigger] vms[k]).name@ != vm.name@,
                decreases i - j,
            {
                if self.vms[j].name == vm.name {
                    assert(vms[j as int].name@ == vm.name@);
                    return Err(ConfigError::DuplicateVmName(vm.name.clone()));
                }
                j = j + 1;
            }
            match check_path(vm.name.as_str(), kernel_str(), vm.kernel.as_str()) {
                Err(e) => {
                    return Err(e);
                },
                Ok(()) => {},
            }
            match &vm.ramdisk {
                Some(p) => match check_path(vm.name.as_str(), ramdisk_str(), p.as_str()) {
                    Err(e) => {
                        return Err(e);
                    },
                    Ok(()) => {},
                },
                None => {},
            }
            match &vm.root_disk {
                Some(p) => match check_path(vm.name.as_str(), root_disk_str(), p.as_str()) {
                    Err(e) => {
                        return Err(e);
                    },
                    Ok(()) => {},
                },
                None => {},
            }
            assert(vm_fault(vms, i as int) is None);
            i = i + 1;
        }
        let ghost sticks = self.auth_sticks@;
        let mut i: usize = 0;
        while i < self.auth_sticks.len()
            invariant
                i <= sticks.len(),
                sticks == self.auth_sticks@,
                vms_fault_from(vms, 0) is None,
                vms == self.vms@,
                sticks_fault_from(sticks, 0) == sticks_fault_from(sticks, i as int),
            decreases sticks.len() - i,
        {
            let stick = &self.auth_sticks[i];
            if !is_valid_serial(stick.serial.as_str()) {
                return Err(ConfigError::InvalidStickSerial(stick.serial.clone()));
            }
            let mut j: usize = 0;
            while j < i
                invariant
                    j <= i < sticks.len(),
                    sticks == self.auth_sticks@,
                    *stick == sticks[i as int],
                    valid_serial(stick.serial@),
                    vms_fault_from(vms, 0) is None,
                    vms == self.vms@,
                    sticks_fault_from(sticks, 0) == sticks_fault_from(sticks, i as int),
                    forall|k: int| 0 <= k < j ==> (#[trigger] sticks[k]).serial@ != stick.serial@,
                decreases i - j,
            {
                if self.auth_sticks[j].serial == stick.serial {
                    assert(sticks[j as int].serial@ == stick.serial@);
                    return Err(ConfigError::DuplicateStickSerial(stick.serial.clone()));
                }
                j = j + 1;
            }
            i = i + 1;
        }
        let ghost rules = self.policy@;
        let mut i: usize = 0;
        while i < self.policy.len()
            invariant
                i <= rules.len(),
                rules == self.policy@,
                vms == self.vms@,
                sticks == self.auth_sticks@,
                vms_fault_from(vms, 0) is None,
                sticks_fault_from(sticks, 0) is None,
                rules_fault_from(vms, rules, 0) == rules_fault_from(vms, rules, i as int),
            decreases rules.len() - i,
        {
            let rule = &self.policy[i];
            if !is_valid_vm_name(rule.source.as_str()) {
                return Err(ConfigError::InvalidVmName(rule.source.clone()));
            }
            if !is_valid_vm_name(rule.target.as_str()) {
                return Err(ConfigError::InvalidVmName(rule.target.clone()));
            }
            if !knows_vm(&self.vms, &rule.source) {
                return Err(ConfigError::UnknownPolicyVm(rule.source.clone()));
            }
            if !knows_vm(&self.vms, &rule.target) {
                return Err(ConfigError::UnknownPolicyVm(rule.target.clone()));
            }
            i = i + 1;
        }
        Ok(())
    }
}

} // verus!
