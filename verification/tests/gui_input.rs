use krypt::input::{trust_level_score, ClipboardRequest, FocusedWindow, InputError, InputRouter, KeyEvent};
use krypt::usb::{parse_hex_attr, UsbDevice, UsbEvent, UsbMonitor};
use krypt::xen::{frame_sleep_nanos, DirtyRect, GuestMetadata, PixelFormat, SharedBuffer, XenInterface, FRAME_INTERVAL_NANOS};

fn key() -> KeyEvent {
    KeyEvent { keycode: 30, keysym: 0x61, pressed: true, modifiers: 0 }
}

#[test]
fn keys_go_only_to_the_focused_window() {
    let mut r = InputRouter::new();
    assert!(matches!(r.route_key(&key()), Err(InputError::NoFocus)));
    r.set_focus(Some(FocusedWindow { domid: 3, vm_name: "work".into() }));
    assert!(r.route_key(&key()).is_ok());
    assert_eq!(r.require_focus().unwrap().domid, 3);
    r.set_focus(None);
    assert!(matches!(r.route_key(&key()), Err(InputError::NoFocus)));
}

fn clip(src: &str, dst: &str) -> ClipboardRequest {
    ClipboardRequest { src_domid: 1, dst_domid: 2, src_trust: src.into(), dst_trust: dst.into(), size_bytes: 10 }
}

#[test]
fn clipboard_is_never_granted_automatically() {
    let r = InputRouter::default();
    match r.request_clipboard(&clip("red", "green")) {
        Err(InputError::ClipboardDenied { reason }) => assert_eq!(reason, "trust escalation denied: red → green"),
        other => panic!("unexpected {:?}", other),
    }
    for (src, dst) in [("black", "red"), ("green", "green")] {
        match r.request_clipboard(&clip(src, dst)) {
            Err(InputError::ClipboardDenied { reason }) => assert_eq!(reason, "trust escalation required"),
            other => panic!("unexpected {:?}", other),
        }
    }
    match r.request_clipboard(&clip("purple", "orange")) {
        Err(InputError::ClipboardDenied { reason }) => assert_eq!(reason, "trust escalation denied: purple → orange"),
        other => panic!("unexpected {:?}", other),
    }
    assert_eq!(trust_level_score("black"), 4);
    assert_eq!(trust_level_score("Black"), 0);
}

fn device(serial: Option<&str>) -> UsbDevice {
    UsbDevice { vendor_id: 0x0781, product_id: 0x5567, serial: serial.map(String::from), mount_point: None }
}

#[test]
fn only_registered_sticks_trigger_the_kill_switch() {
    let mut m = UsbMonitor::new();
    m.register_stick("ABC1234567".into(), 1);
    assert_eq!(m.slot_for("ABC1234567"), Some(1));
    assert_eq!(m.slot_for("other"), None);
    assert!(matches!(m.classify(device(Some("ABC1234567")), false), UsbEvent::AuthStickRemoved(_)));
    assert!(matches!(m.classify(device(Some("ABC1234567")), true), UsbEvent::AuthStickConnected(_)));
    assert!(matches!(m.classify(device(Some("other")), false), UsbEvent::Unknown(_)));
    assert!(matches!(m.classify(device(None), false), UsbEvent::Unknown(_)));
    m.register_stick("ABC1234567".into(), 5);
    assert_eq!(m.slot_for("ABC1234567"), Some(5));
}

#[test]
fn hex_attributes() {
    assert_eq!(parse_hex_attr(Some("0781\n")), 0x0781);
    assert_eq!(parse_hex_attr(Some("FfFf")), 0xffff);
    assert_eq!(parse_hex_attr(Some("10000")), 0);
    assert_eq!(parse_hex_attr(Some("xyz")), 0);
    assert_eq!(parse_hex_attr(None), 0);
}

#[test]
fn frames_are_paced_per_domain() {
    let mut x = XenInterface::open().unwrap();
    let full = DirtyRect::full(u32::MAX, u32::MAX);
    assert_eq!(x.poll_dirty_regions_at(1, 0), vec![full]);
    assert!(x.poll_dirty_regions_at(1, 15_999_999).is_empty());
    assert_eq!(x.poll_dirty_regions_at(1, 16_000_000), vec![full]);
    assert_eq!(x.poll_dirty_regions_at(2, 16_000_001), vec![full]);
    assert!(x.poll_dirty_regions_at(2, 5).is_empty());
    let mut y = XenInterface::open().unwrap();
    assert_eq!(y.poll_dirty_regions(9).len(), 1);
    assert!(y.read_pixels(9, &[full]).is_empty());
}

#[test]
fn shared_buffer_geometry() {
    let b = SharedBuffer {
        meta: GuestMetadata { domid: 4, vm_name: "work".into(), grant_refs: vec![], width: 1280, height: 800, pixel_format: PixelFormat::Argb32 },
    };
    assert_eq!((b.width(), b.height(), b.stride()), (1280, 800, 5120));
    assert!(b.pixels().is_empty());
}

#[test]
fn frame_loop_sleeps_what_is_left_of_16_ms() {
    assert_eq!(FRAME_INTERVAL_NANOS, 16_000_000);
    assert_eq!(frame_sleep_nanos(0), 16_000_000);
    assert_eq!(frame_sleep_nanos(5_000_000), 11_000_000);
    assert_eq!(frame_sleep_nanos(16_000_000), 0);
    assert_eq!(frame_sleep_nanos(u64::MAX), 0);
}
