use krypt::vm::{parse_domid, xl_failure, Vm, VmConfig, VmError, VmManager, VmState};
use krypt::xl::guest_domains;

fn config(name: &str) -> VmConfig {
    VmConfig {
        name: name.into(),
        memory_mb: 2048,
        vcpus: 2,
        kernel: "/boot/vmlinuz-lts".into(),
        ramdisk: Some("/boot/initramfs".into()),
        root_disk: Some("/dev/vg0/work".into()),
        xl_cfg: None,
    }
}

#[test]
fn generated_xl_config() {
    let vm = Vm::new(config("work"));
    assert_eq!(
        vm.xl_config_text(),
        "name = \"work\"\nmemory = 2048\nvcpus = 2\nkernel = \"/boot/vmlinuz-lts\"\nramdisk = \"/boot/initramfs\"\ndisk = [ \"/dev/vg0/work,raw,xvda,rw\" ]\n"
    );
    assert_eq!(vm.generated_config_path(), "/run/krypt/krypt-work.cfg");
    let mut bare = config("vault");
    bare.ramdisk = None;
    bare.root_disk = None;
    bare.memory_mb = 0;
    assert_eq!(Vm::new(bare).xl_config_text(), "name = \"vault\"\nmemory = 0\nvcpus = 2\nkernel = \"/boot/vmlinuz-lts\"\n");
}

#[test]
fn start_shutdown_destroy_states() {
    let mut vm = Vm::new(config("work"));
    assert_eq!(vm.state, VmState::Halted);
    assert!(vm.check_start().is_ok());
    assert!(matches!(vm.check_shutdown(), Err(VmError::NotFound(n)) if n == "work"));
    assert!(!vm.needs_destroy());
    vm.mark_started(parse_domid(" 17\n"));
    assert_eq!((vm.state, vm.domain_id), (VmState::Running, Some(17)));
    assert!(matches!(vm.check_start(), Err(VmError::AlreadyRunning(n)) if n == "work"));
    assert!(vm.check_shutdown().is_ok());
    assert!(vm.needs_destroy());
    vm.mark_started(None);
    assert_eq!(vm.domain_id, Some(17));
    vm.mark_halted();
    assert_eq!((vm.state, vm.domain_id), (VmState::Halted, None));
}

#[test]
fn xl_errors_and_domid() {
    assert!(matches!(xl_failure("  bad config\n"), VmError::XlFailed(m) if m == "bad config"));
    assert_eq!(parse_domid("abc"), None);
    assert_eq!(parse_domid(""), None);
    assert_eq!(VmError::NotFound("x".into()).message(), "VM 'x' not found");
    assert_eq!(VmState::Crashed.name(), "Crashed");
}

#[test]
fn manager_registers_by_name() {
    let mut m = VmManager::default();
    m.register(config("work"));
    m.register(config("vault"));
    let mut again = config("work");
    again.memory_mb = 4096;
    m.register(again);
    assert_eq!(m.list().len(), 2);
    assert_eq!(m.get("work").unwrap().config.memory_mb, 4096);
    assert!(m.get("ghost").is_none());
    m.get_mut("vault").unwrap().mark_started(Some(3));
    assert_eq!(m.get("vault").unwrap().state, VmState::Running);
    let names: Vec<&str> = m.list().iter().map(|v| v.config.name.as_str()).collect();
    assert_eq!(names, vec!["work", "vault"]);
}

#[test]
fn xl_list_guests() {
    let listing = "Name                                        ID   Mem VCPUs\tState\tTime(s)\nDomain-0                                     0  2048     4     r-----     100.0\nwork                                         1  2048     2     -b----      10.0\n\n   lonely\nvault 2 512 1 -b---- 1.0\n";
    assert_eq!(guest_domains(listing, false), vec!["work", "lonely", "vault"]);
    assert_eq!(guest_domains(listing, true), vec!["work", "vault"]);
    assert!(guest_domains("", false).is_empty());
    assert!(guest_domains("Name ID\n", true).is_empty());
}
