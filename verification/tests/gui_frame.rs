use krypt::frame::trust_colored_frame;
use krypt::wayland::{check_globals, shm_geometry, SurfaceConfig, TrustLevel, WaylandError};

#[test]
fn produces_4_bytes_per_pixel() {
    let buf = trust_colored_frame(4, 3, &TrustLevel::Green);
    assert_eq!(buf.len(), 4 * 3 * 4);
}

#[test]
fn bgra_layout_for_mocha_red() {
    let buf = trust_colored_frame(1, 1, &TrustLevel::Red);
    assert_eq!(buf, vec![0xa8, 0x8b, 0xf3, 0xff]);
}

#[test]
fn bgra_layout_for_mocha_peach() {
    let buf = trust_colored_frame(1, 1, &TrustLevel::Orange);
    assert_eq!(buf, vec![0x87, 0xb3, 0xfa, 0xff]);
}

#[test]
fn oversized_returns_empty() {
    let buf = trust_colored_frame(20_000, 20_000, &TrustLevel::Green);
    assert!(buf.is_empty());
}

#[test]
fn overflow_returns_empty() {
    let buf = trust_colored_frame(u32::MAX, u32::MAX, &TrustLevel::Black);
    assert!(buf.is_empty());
}

#[test]
fn black_is_crust_not_pure_black() {
    let buf = trust_colored_frame(1, 1, &TrustLevel::Black);
    assert_eq!(buf, vec![0x1b, 0x11, 0x11, 0xff]);
}

// --- further cases ---

#[test]
fn frame_at_the_size_limit_is_filled() {
    // 8192 x 8192 x 4 bytes = 256 MiB exactly
    let buf = trust_colored_frame(8192, 8192, &TrustLevel::Yellow);
    assert_eq!(buf.len(), 256 * 1024 * 1024);
    assert_eq!(&buf[buf.len() - 4..], &[0xaf, 0xe2, 0xf9, 0xff]);
    let empty = trust_colored_frame(8192, 8193, &TrustLevel::Yellow);
    assert!(empty.is_empty());
}

#[test]
fn window_title_and_app_id() {
    let cfg = SurfaceConfig {
        vm_name: "vault".into(),
        trust: TrustLevel::Black,
        width: 960,
        height: 600,
        title: "KeePassXC".into(),
    };
    assert_eq!(cfg.krypt_title(), "[black] vault: KeePassXC");
    assert_eq!(cfg.app_id(), "krypt.vault");
    assert_eq!(TrustLevel::Orange.as_tag(), "orange");
}

#[test]
fn shm_geometry_checks() {
    let g = shm_geometry(1280, 800).unwrap();
    assert_eq!((g.stride, g.size), (5120, 4_096_000));
    match shm_geometry(u32::MAX, 1) {
        Err(WaylandError::Buffer(m)) => assert_eq!(m, "stride overflow: width=4294967295"),
        other => panic!("unexpected {:?}", other),
    }
    match shm_geometry(65536, 65536) {
        Err(WaylandError::Buffer(m)) => assert_eq!(m, "size overflow: 65536x65536"),
        other => panic!("unexpected {:?}", other),
    }
    match shm_geometry(23171, 23171) {
        Err(WaylandError::Buffer(m)) => assert_eq!(m, "size > i32::MAX: 2147580964"),
        other => panic!("unexpected {:?}", other),
    }
    match shm_geometry(0, 3_000_000_000) {
        Err(WaylandError::Buffer(m)) => assert_eq!(m, "height > i32::MAX: 3000000000"),
        other => panic!("unexpected {:?}", other),
    }
    match shm_geometry(600_000_000, 0) {
        Err(WaylandError::Buffer(m)) => assert_eq!(m, "stride > i32::MAX: 2400000000"),
        other => panic!("unexpected {:?}", other),
    }
}

#[test]
fn missing_globals_are_named_in_order() {
    assert!(check_globals(true, true, true).is_ok());
    assert!(matches!(check_globals(false, false, true), Err(WaylandError::MissingGlobal("wl_compositor"))));
    assert!(matches!(check_globals(true, false, false), Err(WaylandError::MissingGlobal("xdg_wm_base"))));
    assert!(matches!(check_globals(true, true, false), Err(WaylandError::MissingGlobal("wl_shm"))));
}
