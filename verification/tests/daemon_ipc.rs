use krypt::config::PanicLevel;
use krypt::daemon::{handle_message, start_reply, stop_reply, DaemonStep};
use krypt::ipc::{
    frame_header, frame_length, list_vms_reply, start_vm_reply, stop_vm_reply, IpcError,
    IpcMessage, PolicyDecision, VmInfo, MAX_FRAME,
};
use krypt::policy::{PolicyEngine, PolicyRule, PolicyAction, TrustLevel};
use krypt::vm::{VmConfig, VmError, VmManager};

fn config(name: &str) -> VmConfig {
    VmConfig {
        name: name.into(),
        memory_mb: 2048,
        vcpus: 2,
        kernel: "/boot/vmlinuz-lts".into(),
        ramdisk: None,
        root_disk: None,
        xl_cfg: None,
    }
}

fn setup() -> (PolicyEngine, VmManager) {
    let mut p = PolicyEngine::new();
    p.set_trust("work".into(), TrustLevel::Green);
    p.set_trust("vault".into(), TrustLevel::Black);
    p.add_rule(PolicyRule { source_vm: "vault".into(), target_vm: "work".into(), action: PolicyAction::Allow });
    let mut m = VmManager::new();
    m.register(config("work"));
    m.register(config("vault"));
    (p, m)
}

#[test]
fn frame_header_round_trip() {
    for n in [0usize, 1, 255, 256, 4097, MAX_FRAME] {
        let h = frame_header(n).unwrap();
        assert_eq!(h, (n as u32).to_le_bytes());
        assert_eq!(frame_length(h).unwrap(), n);
    }
}

#[test]
fn frame_too_large_is_refused_both_ways() {
    assert!(matches!(frame_header(MAX_FRAME + 1), Err(IpcError::FrameTooLarge(n)) if n == MAX_FRAME + 1));
    let h = ((MAX_FRAME + 1) as u32).to_le_bytes();
    assert!(matches!(frame_length(h), Err(IpcError::FrameTooLarge(n)) if n == MAX_FRAME + 1));
    assert!(matches!(frame_length([0xff; 4]), Err(IpcError::FrameTooLarge(n)) if n == u32::MAX as usize));
}

#[test]
fn policy_check_is_answered_with_reason() {
    let (p, m) = setup();
    let msg = IpcMessage::PolicyCheck { src_vm: "work".into(), dst_vm: "vault".into(), service: "clipboard".into() };
    match handle_message(msg, &p, &m) {
        DaemonStep::Reply(IpcMessage::PolicyResponse { decision, reason }) => {
            assert_eq!(decision, PolicyDecision::Deny);
            assert_eq!(reason.as_deref(), Some("work → vault [clipboard]"));
        }
        other => panic!("unexpected {:?}", other),
    }
    let msg = IpcMessage::PolicyCheck { src_vm: "vault".into(), dst_vm: "work".into(), service: "x".into() };
    assert!(matches!(
        handle_message(msg, &p, &m),
        DaemonStep::Reply(IpcMessage::PolicyResponse { decision: PolicyDecision::Allow, .. })
    ));
}

#[test]
fn status_and_list_of_managed_vms() {
    let (p, mut m) = setup();
    m.get_mut("work").unwrap().mark_started(Some(42));
    match handle_message(IpcMessage::VmStatusQuery { vm_name: "work".into() }, &p, &m) {
        DaemonStep::Reply(IpcMessage::VmStatusResponse { vm_name, state, domain_id }) => {
            assert_eq!(vm_name, "work");
            assert_eq!(state, "Running");
            assert_eq!(domain_id, Some(42));
        }
        other => panic!("unexpected {:?}", other),
    }
    match handle_message(IpcMessage::ListVmsQuery {}, &p, &m) {
        DaemonStep::Reply(IpcMessage::ListVmsResponse { vms }) => {
            assert_eq!(vms.len(), 2);
            assert_eq!((vms[0].name.as_str(), vms[0].state.as_str(), vms[0].trust_level.as_str()), ("work", "Running", "green"));
            assert_eq!((vms[1].name.as_str(), vms[1].state.as_str(), vms[1].domain_id), ("vault", "Halted", None));
            assert_eq!(vms[1].trust_level, "black");
        }
        other => panic!("unexpected {:?}", other),
    }
}

#[test]
fn unknown_vm_requests_are_not_found() {
    let (p, m) = setup();
    for msg in [
        IpcMessage::VmStatusQuery { vm_name: "ghost".into() },
        IpcMessage::VmStartRequest { vm_name: "ghost".into() },
        IpcMessage::VmStopRequest { vm_name: "ghost".into(), force: true },
    ] {
        match handle_message(msg, &p, &m) {
            DaemonStep::Reply(IpcMessage::Error { message }) => assert_eq!(message, "VM 'ghost' not found"),
            other => panic!("unexpected {:?}", other),
        }
    }
}

#[test]
fn start_and_stop_become_steps() {
    let (p, m) = setup();
    assert!(matches!(handle_message(IpcMessage::VmStartRequest { vm_name: "work".into() }, &p, &m), DaemonStep::Start(n) if n == "work"));
    assert!(matches!(
        handle_message(IpcMessage::VmStopRequest { vm_name: "vault".into(), force: true }, &p, &m),
        DaemonStep::Stop { vm_name, force: true } if vm_name == "vault"
    ));
}

#[test]
fn responses_sent_to_the_daemon_are_unexpected() {
    let (p, m) = setup();
    match handle_message(IpcMessage::VmStopResponse { vm_name: "work".into() }, &p, &m) {
        DaemonStep::Reply(IpcMessage::Error { message }) => assert_eq!(message, "unexpected message type for daemon endpoint"),
        other => panic!("unexpected {:?}", other),
    }
}

#[test]
fn outcomes_of_start_and_stop() {
    assert!(matches!(start_reply("work".into(), Ok(Some(7))), IpcMessage::VmStartResponse { domain_id: Some(7), .. }));
    match start_reply("work".into(), Err(VmError::AlreadyRunning("work".into()))) {
        IpcMessage::Error { message } => assert_eq!(message, "start failed: VM 'work' already running"),
        other => panic!("unexpected {:?}", other),
    }
    match stop_reply("work".into(), Err(VmError::XlFailed("boom".into()))) {
        IpcMessage::Error { message } => assert_eq!(message, "stop failed: xl command failed: boom"),
        other => panic!("unexpected {:?}", other),
    }
    assert!(matches!(stop_reply("work".into(), Ok(())), IpcMessage::VmStopResponse { vm_name } if vm_name == "work"));
}

#[test]
fn client_reads_replies() {
    let info = VmInfo { name: "work".into(), state: "Running".into(), domain_id: Some(42), trust_level: "green".into() };
    let vms = list_vms_reply(IpcMessage::ListVmsResponse { vms: vec![info] }).unwrap();
    assert_eq!(vms[0].domain_id, Some(42));
    assert!(matches!(list_vms_reply(IpcMessage::Error { message: "daemon overloaded".into() }), Err(IpcError::Io(_))));
    assert_eq!(start_vm_reply(IpcMessage::VmStartResponse { vm_name: "work".into(), domain_id: Some(7) }).unwrap(), Some(7));
    assert!(start_vm_reply(IpcMessage::Error { message: "VM 'unknown-vm' not found".into() }).is_err());
    assert!(stop_vm_reply(IpcMessage::VmStopResponse { vm_name: "work".into() }).is_ok());
    match stop_vm_reply(IpcMessage::ListVmsQuery {}) {
        Err(IpcError::Io(e)) => assert!(e.to_string().contains("unexpected response to VmStopRequest")),
        other => panic!("unexpected {:?}", other),
    }
}

#[test]
fn panic_levels_for_krypt_panic() {
    assert_eq!(PanicLevel::Lock.panic_arg(), "--level=lock");
    assert_eq!(PanicLevel::Nuke.level_arg(), "nuke");
    assert_eq!(PanicLevel::Suspend.fallback_command(), vec!["systemctl", "suspend"]);
    assert_eq!(PanicLevel::Nuke.fallback_command(), vec!["systemctl", "poweroff", "--force", "--force"]);
    assert_eq!(PanicLevel::Lock.fallback_command(), vec!["loginctl", "lock-sessions"]);
}

#[test]
fn io_failures_are_reported_as_io_errors() {
    let io = || VmError::Io(std::io::Error::new(std::io::ErrorKind::PermissionDenied, "no access"));
    assert_eq!(io().message(), "I/O error: no access");
    match start_reply("work".into(), Err(io())) {
        IpcMessage::Error { message } => assert_eq!(message, "start failed: I/O error: no access"),
        other => panic!("unexpected {:?}", other),
    }
    match stop_reply("work".into(), Err(io())) {
        IpcMessage::Error { message } => assert_eq!(message, "stop failed: I/O error: no access"),
        other => panic!("unexpected {:?}", other),
    }
}
