//! The decisions of the daemon's event loop: how an IPC request is answered,
//! and what the kill switch runs when the auth stick is pulled.
//!
//! Requests that need an `xl` command (starting and stopping VMs) come back
//! as a step for the edge to perform; its outcome is turned into the answer
//! by `start_reply` and `stop_reply`.

use vstd::prelude::*;
use crate::config::PanicLevel;
use crate::ipc::{IpcMessage, PolicyDecision, VmInfo};
use crate::policy::{decide, trust_name, trust_of, PolicyAction, PolicyEngine, TrustLevel};
use crate::vm::{state_name, vm_error_message, Vm, VmError, VmManager};
use vstd::string::StringExecFns;

verus! {

/// What the daemon does with a request.
#[derive(Debug)]
pub enum DaemonStep {
    /// Send this answer.
    Reply(IpcMessage),
    /// Start the VM of this name, then answer with `start_reply`.
    Start(String),
    /// Stop the VM of this name (destroy it when `force`), then answer with
    /// `stop_reply`.
    Stop { vm_name: String, force: bool },
}

/// The protocol decision for a policy action.
pub open spec fn decision_of(a: PolicyAction) -> PolicyDecision {
    match a {
        PolicyAction::Allow => PolicyDecision::Allow,
        PolicyAction::Deny => PolicyDecision::Deny,
        PolicyAction::AskUser => PolicyDecision::AskUser,
    }
}

/// The reason sent with a policy decision: `<src> → <dst> [<service>]`.
pub open spec fn policy_reason(src: Seq<char>, dst: Seq<char>, service: Seq<char>) -> Seq<char> {
    src + " → "@ + dst + " ["@ + service + "]"@
}

/// The answer to a request about an unknown VM.
pub open spec fn not_found_message(name: Seq<char>) -> Seq<char> {
    "VM '"@ + name + "' not found"@
}

/// The answer to a message that is no request.
pub open spec fn unexpected_message() -> Seq<char> {
    "unexpected message type for daemon endpoint"@
}

/// Whether `info` describes `vm`, whose trust level `trust` gives.
pub open spec fn describes(info: VmInfo, vm: Vm, trust: Map<Seq<char>, TrustLevel>) -> bool {
    &&& info.name@ == vm.config.name@
    &&& info.state@ == state_name(vm.state)
    &&& info.domain_id == vm.domain_id
    &&& info.trust_level@ == trust_name(trust_of(trust, vm.config.name@))
}

/// The protocol decision for a policy action.
pub fn decision_for(a: &PolicyAction) -> (d: PolicyDecision)
    ensures
        d == decision_of(*a),
{
    match a {
        PolicyAction::Allow => PolicyDecision::Allow,
        PolicyAction::Deny => PolicyDecision::Deny,
        PolicyAction::AskUser => PolicyDecision::AskUser,
    }
}

fn policy_reason_text(src: &String, dst: &String, service: &String) -> (r: String)
    ensures
        r@ == policy_reason(src@, dst@, service@),
{
    let mut out = String::new();
    out.append(src.as_str());
    out.append(" → ");
    out.append(dst.as_str());
    out.append(" [");
    out.append(service.as_str());
    out.append("]");
    assert(out@ =~= policy_reason(src@, dst@, service@));
    out
}

fn not_found_text(name: &String) -> (r: String)
    ensures
        r@ == not_found_message(name@),
{
    let mut out = String::new();
    out.append("VM '");
    out.append(name.as_str());
    out.append("' not found");
    assert(out@ =~= not_found_message(name@));
    out
}

fn vm_info(vm: &Vm, policy: &PolicyEngine) -> (info: VmInfo)
    ensures
        describes(info, *vm, policy.trust()),
{
    VmInfo {
        name: vm.config.name.clone(),
        state: String::from_str(vm.state.name()),
        domain_id: vm.domain_id,
        trust_level: String::from_str(policy.get_trust(vm.config.name.as_str()).to_str()),
    }
}

/// Decides what to do with a message that reached the daemon.
///
/// A policy check is answered with the engine's decision and the reason
/// `<src> → <dst> [<service>]`; a status query and the VM list with the
/// managed VMs (state as `{:?}` writes it, trust level as the engine gives
/// it); a start or stop request for a managed VM becomes a step for the
/// edge, one for an unknown VM is answered `VM '<name>' not found`. Any
/// other message is answered with an error.
pub fn handle_message(msg: IpcMessage, policy: &PolicyEngine, vms: &VmManager) -> (r: DaemonStep)
    requires
        vms.wf(),
    ensures
        msg matches IpcMessage::PolicyCheck { src_vm, dst_vm, service } ==> (r matches DaemonStep::Reply(
            IpcMessage::PolicyResponse { decision, reason: Some(why) },
        ) && decision == decision_of(decide(policy.rules(), policy.trust(), src_vm@, dst_vm@))
            && why@ == policy_reason(src_vm@, dst_vm@, service@)),
        msg matches IpcMessage::VmStatusQuery { vm_name } ==> (if vms.vms().contains_key(
            vm_name@,
        ) {
            r matches DaemonStep::Reply(
                IpcMessage::VmStatusResponse { vm_name: n, state, domain_id },
            ) && n@ == vm_name@ && state@ == state_name(vms.vms()[vm_name@].state) && domain_id
                == vms.vms()[vm_name@].domain_id
        } else {
            r matches DaemonStep::Reply(IpcMessage::Error { message }) && message@
                == not_found_message(vm_name@)
        }),
        msg is ListVmsQuery ==> (r matches DaemonStep::Reply(
            IpcMessage::ListVmsResponse { vms: list },
        ) && list@.len() == vms.names().len() && forall|i: int|
            0 <= i < list@.len() ==> describes(
                #[trigger] list@[i],
                vms.vms()[vms.names()[i]],
                policy.trust(),
            )),
        msg is ListVmsQuery ==> vms.names().no_duplicates() && forall|k: Seq<char>|
            #[trigger] vms.vms().contains_key(k) ==> vms.names().contains(k),
        msg matches IpcMessage::VmStartRequest { vm_name } ==> (if vms.vms().contains_key(
            vm_name@,
        ) {
            r matches DaemonStep::Start(n) && n@ == vm_name@
        } else {
            r matches DaemonStep::Reply(IpcMessage::Error { message }) && message@
                == not_found_message(vm_name@)
        }),
        msg matches IpcMessage::VmStopRequest { vm_name, force } ==> (if vms.vms().contains_key(
            vm_name@,
        ) {
            r matches DaemonStep::Stop { vm_name: n, force: f } && n@ == vm_name@ && f == force
        } else {
            r matches DaemonStep::Reply(IpcMessage::Error { message }) && message@
                == not_found_message(vm_name@)
        }),
        !(msg is PolicyCheck || msg is VmStatusQuery || msg is ListVmsQuery
            || msg is VmStartRequest || msg is VmStopRequest) ==> (r matches DaemonStep::Reply(
            IpcMessage::Error { message },
        ) && message@ == unexpected_message()),
{
    match msg {
        IpcMessage::PolicyCheck { src_vm, dst_vm, service } => {
            let decision = decision_for(policy.check(src_vm.as_str(), dst_vm.as_str()));
            let reason = policy_reason_text(&src_vm, &dst_vm, &service);
            DaemonStep::Reply(IpcMessage::PolicyResponse { decision, reason: Some(reason) })
        },
        IpcMessage::VmStatusQuery { vm_name } => match vms.get(vm_name.as_str()) {
            Some(vm) => DaemonStep::Reply(
                IpcMessage::VmStatusResponse {
                    vm_name: vm_name.clone(),
                    state: String::from_str(vm.state.name()),
                    domain_id: vm.domain_id,
                },
            ),
            None => DaemonStep::Reply(IpcMessage::Error { message: not_found_text(&vm_name) }),
        },
        IpcMessage::ListVmsQuery {  } => {
            let all = vms.list();
            let mut list: Vec<VmInfo> = Vec::new();
            let mut i: usize = 0;
            while i < all.len()
                invariant
                    i <= all@.len(),
                    all@.len() == vms.names().len(),
                    forall|k: int| 0 <= k < all@.len() ==> *(#[trigger] all@[k]) == vms.vms()[vms.names()[k]],
                    list@.len() == i,
                    forall|k: int|
                        0 <= k < i ==> describes(
                            #[trigger] list@[k],
                            vms.vms()[vms.names()[k]],
                            policy.trust(),
                        ),
                decreases all@.len() - i,
            {
                let info = vm_info(all[i], policy);
                list.push(info);
                i = i + 1;
            }
            DaemonStep::Reply(IpcMessage::ListVmsResponse { vms: list })
        },
        IpcMessage::VmStartRequest { vm_name } => {
            if vms.get(vm_name.as_str()).is_some() {
                DaemonStep::Start(vm_name)
            } else {
                DaemonStep::Reply(IpcMessage::Error { message: not_found_text(&vm_name) })
            }
        },
        IpcMessage::VmStopRequest { vm_name, force } => {
            if vms.get(vm_name.as_str()).is_some() {
                DaemonStep::Stop { vm_name, force }
            } else {
                DaemonStep::Reply(IpcMessage::Error { message: not_found_text(&vm_name) })
            }
        },
        _ => {
            DaemonStep::Reply(
                IpcMessage::Error {
                    message: String::from_str("unexpected message type for daemon endpoint"),
                },
            )
        },
    }
}

/// The answer to a start request once the edge tried to start the VM:
/// the domain ID on success, else `start failed: <error>`.
pub fn start_reply(vm_name: String, outcome: Result<Option<u32>, VmError>) -> (r: IpcMessage)
    ensures
        outcome matches Ok(d) ==> r == (IpcMessage::VmStartResponse { vm_name, domain_id: d }),
        outcome matches Err(e) ==> (r matches IpcMessage::Error { message } && (
        vm_error_message(e) matches Some(m) ==> message@ == "start failed: "@ + m)),
        outcome matches Err(e) && e is Io ==> (r matches IpcMessage::Error { message }
            && "start failed: I/O error: "@.is_prefix_of(message@)),
{
    match outcome {
        Ok(domain_id) => IpcMessage::VmStartResponse { vm_name, domain_id },
        Err(e) => {
            let mut message = String::from_str("start failed: ");
            let text = e.message();
            message.append(text.as_str());
            proof {
                if e is Io {
                    reveal_strlit("start failed: ");
                    reveal_strlit("I/O error: ");
                    reveal_strlit("start failed: I/O error: ");
                    assert(("start failed: "@ + "I/O error: "@) =~= "start failed: I/O error: "@);
                    assert(message@.subrange(0, ("start failed: I/O error: "@).len() as int)
                        =~= "start failed: I/O error: "@);
                }
            }
            IpcMessage::Error { message }
        },
    }
}

/// The answer to a stop request once the edge tried to stop the VM:
/// a confirmation on success, else `stop failed: <error>`.
pub fn stop_reply(vm_name: String, outcome: Result<(), VmError>) -> (r: IpcMessage)
    ensures
        outcome is Ok ==> r == (IpcMessage::VmStopResponse { vm_name }),
        outcome matches Err(e) ==> (r matches IpcMessage::Error { message } && (
        vm_error_message(e) matches Some(m) ==> message@ == "stop failed: "@ + m)),
        outcome matches Err(e) && e is Io ==> (r matches IpcMessage::Error { message }
            && "stop failed: I/O error: "@.is_prefix_of(message@)),
{
    match outcome {
        Ok(()) => IpcMessage::VmStopResponse { vm_name },
        Err(e) => {
            let mut message = String::from_str("stop failed: ");
            let text = e.message();
            message.append(text.as_str());
            proof {
                if e is Io {
                    reveal_strlit("stop failed: ");
                    reveal_strlit("I/O error: ");
                    reveal_strlit("stop failed: I/O error: ");
                    assert(("stop failed: "@ + "I/O error: "@) =~= "stop failed: I/O error: "@);
                    assert(message@.subrange(0, ("stop failed: I/O error: "@).len() as int)
                        =~= "stop failed: I/O error: "@);
                }
            }
            IpcMessage::Error { message }
        },
    }
}

/// The level argument for `krypt-panic`: `lock`, `suspend` or `nuke`.
pub open spec fn level_name(l: PanicLevel) -> Seq<char> {
    match l {
        PanicLevel::Lock => "lock"@,
        PanicLevel::Suspend => "suspend"@,
        PanicLevel::Nuke => "nuke"@,
    }
}

/// The command the daemon runs itself when `krypt-panic` is missing or
/// failed: program and arguments.
pub open spec fn fallback_command(l: PanicLevel) -> Seq<Seq<char>> {
    match l {
        PanicLevel::Lock => seq!["loginctl"@, "lock-sessions"@],
        PanicLevel::Suspend => seq!["systemctl"@, "suspend"@],
        PanicLevel::Nuke => seq!["systemctl"@, "poweroff"@, "--force"@, "--force"@],
    }
}

impl PanicLevel {
    /// The name of the level as `krypt-panic --level=` takes it.
    pub fn level_arg(&self) -> (r: &'static str)
        ensures
            r@ == level_name(*self),
    {
        match self {
            PanicLevel::Lock => "lock",
            PanicLevel::Suspend => "suspend",
            PanicLevel::Nuke => "nuke",
        }
    }

    /// The argument that passes this level to `krypt-panic`:
    /// `--level=<level>`.
    pub fn panic_arg(&self) -> (r: String)
        ensures
            r@ == "--level="@ + level_name(*self),
    {
        let mut out = String::from_str("--level=");
        out.append(self.level_arg());
        out
    }

    /// The command of the fallback when `krypt-panic` cannot act:
    /// `loginctl lock-sessions`, `systemctl suspend`, or
    /// `systemctl poweroff --force --force`.
    pub fn fallback_command(&self) -> (r: Vec<&'static str>)
        ensures
            r@.len() == fallback_command(*self).len(),
            forall|i: int| 0 <= i < r@.len() ==> (#[trigger] r@[i])@ == fallback_command(*self)[i],
    {
        let r = match self {
            PanicLevel::Lock => vec!["loginctl", "lock-sessions"],
            PanicLevel::Suspend => vec!["systemctl", "suspend"],
            PanicLevel::Nuke => vec!["systemctl", "poweroff", "--force", "--force"],
        };
        r
    }
}

} // verus!
