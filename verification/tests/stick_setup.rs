use krypt::stick::{
    clean_serial, is_affirmative, is_gpt_signature, serial_from_udevadm, strip_partition_suffix,
};

#[test]
fn sata_partition_stripped() {
    assert_eq!(strip_partition_suffix("sdb1"), "sdb");
    assert_eq!(strip_partition_suffix("sda"), "sda");
    assert_eq!(strip_partition_suffix("sdc3"), "sdc");
    assert_eq!(strip_partition_suffix("vda2"), "vda");
    assert_eq!(strip_partition_suffix("hda"), "hda");
}

#[test]
fn nvme_partition_stripped() {
    assert_eq!(strip_partition_suffix("nvme0n1p1"), "nvme0n1");
    assert_eq!(strip_partition_suffix("nvme0n1p2"), "nvme0n1");
    assert_eq!(strip_partition_suffix("nvme0n1"), "nvme0n1");
    assert_eq!(strip_partition_suffix("nvme1n2p3"), "nvme1n2");
}

#[test]
fn mmc_partition_stripped() {
    assert_eq!(strip_partition_suffix("mmcblk0p1"), "mmcblk0");
    assert_eq!(strip_partition_suffix("mmcblk0"), "mmcblk0");
}

#[test]
fn loop_device_unchanged() {
    assert_eq!(strip_partition_suffix("loop0"), "loop0");
    assert_eq!(strip_partition_suffix("loop0p1"), "loop0");
}

// --- further cases ---

#[test]
fn odd_names_are_kept() {
    assert_eq!(strip_partition_suffix(""), "");
    assert_eq!(strip_partition_suffix("123"), "123");
    assert_eq!(strip_partition_suffix("dm-0"), "dm-0");
    assert_eq!(strip_partition_suffix("nvme0n1p"), "nvme0n1p");
    assert_eq!(strip_partition_suffix("nvmep1"), "nvmep1");
}

#[test]
fn gpt_signature_detected() {
    assert!(is_gpt_signature(b"EFI PART"));
    assert!(!is_gpt_signature(b"EFI PARX"));
    assert!(!is_gpt_signature(b"EFI PAR"));
    assert!(!is_gpt_signature(&[0u8; 8]));
}

#[test]
fn udevadm_short_serial() {
    let out = "DEVNAME=/dev/sdb\nID_SERIAL=Vendor_Stick_ABC123\nID_SERIAL_SHORT=  \nID_SERIAL_SHORT= ABC123 \nID_SERIAL_SHORT=XYZ\n";
    assert_eq!(serial_from_udevadm(out), Some("ABC123".to_string()));
    assert_eq!(serial_from_udevadm("DEVNAME=/dev/sdb\n"), None);
}

#[test]
fn sysfs_serial_is_trimmed() {
    assert_eq!(clean_serial("  4C530001\n"), Some("4C530001".to_string()));
    assert_eq!(clean_serial(" \n"), None);
}

#[test]
fn prompt_answers() {
    assert!(is_affirmative("y\n"));
    assert!(is_affirmative(" YES "));
    assert!(is_affirmative("Yes"));
    assert!(!is_affirmative("yeah"));
    assert!(!is_affirmative(""));
    assert!(!is_affirmative("n"));
}
