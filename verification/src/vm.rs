//! VM lifecycle: the state of each Xen domain the daemon manages, and the
//! decisions around `xl create`, `xl shutdown` and `xl destroy`.
//!
//! The `xl` commands themselves run at the edge; each operation here is
//! split into the check before the command and the state change after it
//! succeeded.

use vstd::prelude::*;
use crate::interop::io_error_text;
use crate::names::NameMap;
use crate::text::{chars_of, decimal, parse_u32, parse_u32_range, push_decimal, trim, trim_range};
use vstd::string::StringExecFns;

verus! {

/// Why a VM operation failed.
#[derive(Debug)]
pub enum VmError {
    NotFound(String),
    AlreadyRunning(String),
    XlFailed(String),
    Io(std::io::Error),
}

/// The state of a VM.
#[derive(Debug, Clone, Copy, PartialEq, Eq, Structural)]
pub enum VmState {
    Halted,
    Running,
    Paused,
    Crashed,
}

/// How a VM is built.
///
/// `xl_cfg` is the path of an existing xl config file; without one, the
/// config is generated from the other fields.
#[derive(Debug, Clone)]
pub struct VmConfig {
    pub name: String,
    pub memory_mb: u32,
    pub vcpus: u32,
    pub kernel: String,
    pub ramdisk: Option<String>,
    pub root_disk: Option<String>,
    pub xl_cfg: Option<String>,
}

/// A managed VM.
#[derive(Debug)]
pub struct Vm {
    pub config: VmConfig,
    pub state: VmState,
    /// The Xen domain ID; `None` while the VM is halted.
    pub domain_id: Option<u32>,
}

/// The name of a state as `{:?}` writes it.
pub open spec fn state_name(s: VmState) -> Seq<char> {
    match s {
        VmState::Halted => seq!['H', 'a', 'l', 't', 'e', 'd'],
        VmState::Running => seq!['R', 'u', 'n', 'n', 'i', 'n', 'g'],
        VmState::Paused => seq!['P', 'a', 'u', 's', 'e', 'd'],
        VmState::Crashed => seq!['C', 'r', 'a', 's', 'h', 'e', 'd'],
    }
}

impl VmState {
    /// The name of the state: `"Halted"`, `"Running"`, `"Paused"` or
    /// `"Crashed"`.
    pub fn name(&self) -> (r: &'static str)
        ensures
            r@ == state_name(*self),
    {
        proof {
            reveal_strlit("Halted");
            reveal_strlit("Running");
            reveal_strlit("Paused");
            reveal_strlit("Crashed");
        }
        match self {
            VmState::Halted => "Halted",
            VmState::Running => "Running",
            VmState::Paused => "Paused",
            VmState::Crashed => "Crashed",
        }
    }
}

/// The xl config generated for a VM without its own config file.
pub open spec fn xl_config(c: VmConfig) -> Seq<char> {
    "name = \""@ + c.name@ + "\"\nmemory = "@ + decimal(c.memory_mb as nat) + "\nvcpus = "@
        + decimal(c.vcpus as nat) + "\nkernel = \""@ + c.kernel@ + "\"\n"@ + match c.ramdisk {
        Some(rd) => "ramdisk = \""@ + rd@ + "\"\n"@,
        None => Seq::empty(),
    } + match c.root_disk {
        Some(d) => "disk = [ \""@ + d@ + ",raw,xvda,rw\" ]\n"@,
        None => Seq::empty(),
    }
}

/// Where the generated xl config of the VM `name` is written.
pub open spec fn generated_config_path(name: Seq<char>) -> Seq<char> {
    "/run/krypt/krypt-"@ + name + ".cfg"@
}

/// The message of an error as the daemon reports it.
pub open spec fn vm_error_message(e: VmError) -> Option<Seq<char>> {
    match e {
        VmError::NotFound(n) => Some("VM '"@ + n@ + "' not found"@),
        VmError::AlreadyRunning(n) => Some("VM '"@ + n@ + "' already running"@),
        VmError::XlFailed(m) => Some("xl command failed: "@ + m@),
        VmError::Io(_) => None,
    }
}

impl VmError {
    /// The message of the error: `VM '<name>' not found`,
    /// `VM '<name>' already running`, `xl command failed: <stderr>`, or
    /// `I/O error: <error>`.
    pub fn message(&self) -> (r: String)
        ensures
            vm_error_message(*self) matches Some(m) ==> r@ == m,
            self is Io ==> "I/O error: "@.is_prefix_of(r@),
    {
        let mut out = String::new();
        match self {
            VmError::NotFound(n) => {
                out.append("VM '");
                out.append(n.as_str());
                out.append("' not found");
            },
            VmError::AlreadyRunning(n) => {
                out.append("VM '");
                out.append(n.as_str());
                out.append("' already running");
            },
            VmError::XlFailed(m) => {
                out.append("xl command failed: ");
                out.append(m.as_str());
            },
            VmError::Io(e) => {
                out.append("I/O error: ");
                let ghost head = out@;
                let t = io_error_text(e);
                out.append(t.as_str());
                assert(out@.subrange(0, head.len() as int) =~= head);
            },
        }
        out
    }
}

/// The error of a failed `xl` command: its standard error, trimmed.
pub fn xl_failure(stderr: &str) -> (e: VmError)
    ensures
        e matches VmError::XlFailed(m) && m@ == trim(stderr@),
{
    let v = chars_of(stderr);
    let (a, b) = trim_range(&v, 0, v.len());
    assert(v@.subrange(0, v.len() as int) =~= v@);
    VmError::XlFailed(crate::text::substring(stderr, &v, a, b))
}

/// The domain ID that `xl domid <name>` printed, if it printed one.
pub fn parse_domid(stdout: &str) -> (r: Option<u32>)
    ensures
        r == parse_u32(trim(stdout@)),
{
    let v = chars_of(stdout);
    let (a, b) = trim_range(&v, 0, v.len());
    assert(v@.subrange(0, v.len() as int) =~= v@);
    parse_u32_range(&v, a, b)
}

impl Vm {
    /// A halted VM with the given config.
    pub fn new(config: VmConfig) -> (vm: Self)
        ensures
            vm.config == config,
            vm.state == VmState::Halted,
            vm.domain_id is None,
    {
        Vm { config, state: VmState::Halted, domain_id: None }
    }

    /// The minimal xl config for this VM: name, memory, vcpus and kernel,
    /// then the ramdisk and the root disk where they are set.
    pub fn xl_config_text(&self) -> (r: String)
        ensures
            r@ == xl_config(self.config),
    {
        let c = &self.config;
        let mut out = String::new();
        out.append("name = \"");
        out.append(c.name.as_str());
        out.append("\"\nmemory = ");
        push_decimal(&mut out, c.memory_mb as u64);
        out.append("\nvcpus = ");
        push_decimal(&mut out, c.vcpus as u64);
        out.append("\nkernel = \"");
        out.append(c.kernel.as_str());
        out.append("\"\n");
        let ghost head = out@;
        match &c.ramdisk {
            Some(rd) => {
                out.append("ramdisk = \"");
                out.append(rd.as_str());
                out.append("\"\n");
            },
            None => {},
        }
        let ghost mid = out@;
        match &c.root_disk {
            Some(d) => {
                out.append("disk = [ \"");
                out.append(d.as_str());
                out.append(",raw,xvda,rw\" ]\n");
            },
            None => {},
        }
        assert(out@ =~= xl_config(self.config));
        out
    }

    /// The path the generated xl config of this VM is written to:
    /// `/run/krypt/krypt-<name>.cfg`.
    pub fn generated_config_path(&self) -> (r: String)
        ensures
            r@ == generated_config_path(self.config.name@),
    {
        let mut out = String::new();
        out.append("/run/krypt/krypt-");
        out.append(self.config.name.as_str());
        out.append(".cfg");
        assert(out@ =~= generated_config_path(self.config.name@));
        out
    }

    /// Whether the VM may be started: not when it is running already.
    pub fn check_start(&self) -> (r: Result<(), VmError>)
        ensures
            self.state == VmState::Running <==> r is Err,
            r matches Err(e) ==> (e matches VmError::AlreadyRunning(n) && n@ == self.config.name@),
    {
        if self.state == VmState::Running {
            Err(VmError::AlreadyRunning(self.config.name.clone()))
        } else {
            Ok(())
        }
    }

    /// Records a successful `xl create`: the VM runs, with the domain ID
    /// that `xl domid` gave, where it gave one.
    pub fn mark_started(&mut self, domain_id: Option<u32>)
        ensures
            final(self).state == VmState::Running,
            final(self).config == old(self).config,
            final(self).domain_id == match domain_id {
                Some(d) => Some(d),
                None => old(self).domain_id,
            },
    {
        if let Some(d) = domain_id {
            self.domain_id = Some(d);
        }
        self.state = VmState::Running;
    }

    /// Whether the VM may be shut down: only a running VM can; any other is
    /// reported as not found.
    pub fn check_shutdown(&self) -> (r: Result<(), VmError>)
        ensures
            self.state != VmState::Running <==> r is Err,
            r matches Err(e) ==> (e matches VmError::NotFound(n) && n@ == self.config.name@),
    {
        if self.state != VmState::Running {
            Err(VmError::NotFound(self.config.name.clone()))
        } else {
            Ok(())
        }
    }

    /// Whether destroying the VM takes an `xl destroy`: a halted VM needs
    /// none, a paused or crashed one does.
    pub fn needs_destroy(&self) -> (b: bool)
        ensures
            b == (self.state != VmState::Halted),
    {
        self.state != VmState::Halted
    }

    /// Records a successful shutdown or destroy: the VM is halted and has no
    /// domain.
    pub fn mark_halted(&mut self)
        ensures
            final(self).state == VmState::Halted,
            final(self).domain_id is None,
            final(self).config == old(self).config,
    {
        self.state = VmState::Halted;
        self.domain_id = None;
    }
}

/// The VMs the daemon manages, by name.
pub struct VmManager {
    vms: NameMap<Vm>,
}

impl VmManager {
    /// The VM of each name.
    pub closed spec fn vms(&self) -> Map<Seq<char>, Vm> {
        self.vms.map()
    }

    /// The names of the VMs, in the order they were first registered.
    pub closed spec fn names(&self) -> Seq<Seq<char>> {
        self.vms.keys_seq()
    }

    /// Every VM has one entry; `new` gives such a manager and every method
    /// keeps it so.
    pub closed spec fn wf(&self) -> bool {
        self.vms.wf()
    }

    /// A manager without VMs.
    pub fn new() -> (m: Self)
        ensures
            m.vms() == Map::<Seq<char>, Vm>::empty(),
            m.names() == Seq::<Seq<char>>::empty(),
            m.wf(),
    {
        VmManager { vms: NameMap::new() }
    }

    /// Registers a halted VM under the name of its config, replacing a VM
    /// registered under that name before.
    pub fn register(&mut self, config: VmConfig)
        ensures
            final(self).vms() == old(self).vms().insert(
                config.name@,
                Vm { config, state: VmState::Halted, domain_id: None },
            ),
            final(self).names() == if old(self).vms().contains_key(config.name@) {
                old(self).names()
            } else {
                old(self).names().push(config.name@)
            },
            old(self).wf() ==> final(self).wf(),
    {
        let name = config.name.clone();
        self.vms.insert(name, Vm::new(config));
    }

    /// The VM called `name`.
    pub fn get(&self, name: &str) -> (r: Option<&Vm>)
        ensures
            match r {
                Some(vm) => self.vms().contains_key(name@) && *vm == self.vms()[name@],
                None => !self.vms().contains_key(name@),
            },
    {
        self.vms.get(name)
    }

    /// The VM called `name`, for change in place.
    pub fn get_mut(&mut self, name: &str) -> (r: Option<&mut Vm>)
        ensures
            final(self).names() == old(self).names(),
            old(self).wf() ==> final(self).wf(),
            match r {
                Some(vm) => {
                    &&& old(self).vms().contains_key(name@)
                    &&& *vm == old(self).vms()[name@]
                    &&& final(self).vms() == old(self).vms().insert(name@, *final(vm))
                },
                None => {
                    &&& !old(self).vms().contains_key(name@)
                    &&& final(self).vms() == old(self).vms()
                },
            },
    {
        self.vms.get_mut(name)
    }

    /// All VMs, each once, in the order they were first registered.
    pub fn list(&self) -> (r: Vec<&Vm>)
        requires
            self.wf(),
        ensures
            r@.len() == self.names().len(),
            self.names().no_duplicates(),
            forall|i: int| 0 <= i < r@.len() ==> self.vms().contains_key(#[trigger] self.names()[i]),
            forall|i: int| 0 <= i < r@.len() ==> *(#[trigger] r@[i]) == self.vms()[self.names()[i]],
            forall|k: Seq<char>| #[trigger] self.vms().contains_key(k) ==> self.names().contains(k),
    {
        let r = self.vms.values();
        r
    }
}

impl Default for VmManager {
    fn default() -> (m: Self)
        ensures
            m.vms() == Map::<Seq<char>, Vm>::empty(),
            m.names() == Seq::<Seq<char>>::empty(),
    {
        Self::new()
    }
}

} // verus!
