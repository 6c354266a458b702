use krypt::luks::{active_slots_from_dump, first_free_slot, sorted_slots};
use std::collections::HashSet;

const LUKS2_DUMP: &str = r#"LUKS header information
Version:       	2
Epoch:         	5
UUID:          	a1b2c3d4-e5f6-7890-abcd-ef1234567890
Flags:       	(no flags)

Data segments:
  0: crypt
	offset: 16777216 [bytes]
	cipher: aes-xts-plain64

Keyslots:
  0: luks2
	Key:        512 bits
	Priority:   normal
	Cipher:     aes-xts-plain64
	PBKDF:      argon2id
  1: luks2
	Key:        512 bits
	Priority:   normal
  3: luks2
	Key:        512 bits
	Priority:   normal
Tokens:
Digests:
  0: pbkdf2
	Hash:       sha256
"#;

const LUKS1_DUMP: &str = r#"LUKS header information for /dev/sda2

Version:       	1
Cipher name:   	aes
Cipher mode:   	xts-plain64
UUID:          	a1b2c3d4-1234-5678-abcd-ef0987654321

Key Slot 0: ENABLED
	Iterations:         	819200
	AF stripes:            4000
Key Slot 1: DISABLED
Key Slot 2: ENABLED
	Iterations:         	819200
Key Slot 3: DISABLED
Key Slot 4: DISABLED
Key Slot 5: DISABLED
Key Slot 6: DISABLED
Key Slot 7: DISABLED
"#;

const EMPTY_DUMP: &str = r#"LUKS header information
Version:       	2
Keyslots:
Tokens:
Digests:
"#;

fn full_luks2_dump() -> String {
    let mut s = String::from("LUKS header information\nVersion:\t2\n\nKeyslots:\n");
    for i in 0..32u32 {
        s.push_str(&format!("  {i}: luks2\n\tKey: 512 bits\n"));
    }
    s.push_str("Tokens:\n");
    s
}

#[test]
fn luks2_parses_three_active_slots() {
    let slots = active_slots_from_dump(LUKS2_DUMP);
    assert_eq!(slots.len(), 3);
    assert!(slots.contains(&0));
    assert!(slots.contains(&1));
    assert!(slots.contains(&3));
    assert!(!slots.contains(&2));
}

#[test]
fn luks1_parses_enabled_slots() {
    let slots = active_slots_from_dump(LUKS1_DUMP);
    assert_eq!(slots.len(), 2);
    assert!(slots.contains(&0));
    assert!(slots.contains(&2));
    assert!(!slots.contains(&1));
    assert!(!slots.contains(&7));
}

#[test]
fn empty_dump_returns_no_slots() {
    let slots = active_slots_from_dump(EMPTY_DUMP);
    assert!(slots.is_empty());
}

#[test]
fn all_32_slots_occupied() {
    let dump = full_luks2_dump();
    let slots = active_slots_from_dump(&dump);
    assert_eq!(slots.len(), 32);
    let free = (0..32u32).find(|s| !slots.contains(s));
    assert!(free.is_none());
}

#[test]
fn next_free_slot_skips_used() {
    let dump = "LUKS header information\nVersion:\t2\n\nKeyslots:\n  0: luks2\n  1: luks2\nTokens:\n";
    let slots = active_slots_from_dump(dump);
    let next = (0..32u32).find(|s| !slots.contains(s));
    assert_eq!(next, Some(2));
}

#[test]
fn luks2_section_ends_at_non_indented_line() {
    let dump = "Version:\t2\n\nKeyslots:\n  0: luks2\nTokens:\n  0: some_token\nDigests:\n";
    let slots = active_slots_from_dump(dump);
    assert_eq!(slots.len(), 1);
    assert!(slots.contains(&0));
}

#[test]
fn ignores_luks1_disabled_slots() {
    let dump = "Key Slot 0: DISABLED\nKey Slot 1: ENABLED\nKey Slot 2: DISABLED\n";
    let slots = active_slots_from_dump(dump);
    assert_eq!(slots.len(), 1);
    assert!(slots.contains(&1));
}

#[test]
fn handles_mixed_luks2_and_luks1_format_gracefully() {
    let dump = "Keyslots:\n  2: luks2\nKey Slot 5: ENABLED\n";
    let slots = active_slots_from_dump(dump);
    assert!(slots.contains(&2));
    assert!(slots.contains(&5));
}

// --- further cases ---

#[test]
fn first_free_slot_matches_find() {
    let slots = active_slots_from_dump(LUKS2_DUMP);
    assert_eq!(first_free_slot(&slots), Some(2));
    let full = active_slots_from_dump(&full_luks2_dump());
    assert_eq!(first_free_slot(&full), None);
    assert_eq!(first_free_slot(&HashSet::new()), Some(0));
}

#[test]
fn blank_lines_keep_the_section_open_and_crlf_is_handled() {
    let dump = "Keyslots:\r\n  4: luks2\r\n\r\n  6: luks2\r\nTokens:\r\n  7: x\r\n";
    let slots = active_slots_from_dump(dump);
    let mut v: Vec<u32> = slots.into_iter().collect();
    v.sort();
    assert_eq!(v, vec![4, 6]);
}

#[test]
fn plus_sign_and_overflow_in_slot_numbers() {
    let dump = "Keyslots:\n  +8: luks2\n  4294967296: luks2\n  4294967295: luks2\n  -1: luks2\n";
    let mut v: Vec<u32> = active_slots_from_dump(dump).into_iter().collect();
    v.sort();
    assert_eq!(v, vec![8, 4294967295]);
}

#[test]
fn luks1_number_is_not_trimmed() {
    let dump = "Key Slot  3: ENABLED\nKey Slot 9 : ENABLED\nKey Slot 4: ENABLED\n";
    let v: Vec<u32> = active_slots_from_dump(dump).into_iter().collect();
    assert_eq!(v, vec![4]);
}

#[test]
fn sorted_slots_lists_ascending_without_repeats() {
    let mut s: HashSet<u32> = HashSet::new();
    for n in [7u32, 0, 31, 3, 12] {
        s.insert(n);
    }
    assert_eq!(sorted_slots(&s), vec![0, 3, 7, 12, 31]);
    assert_eq!(sorted_slots(&HashSet::new()), Vec::<u32>::new());
    let from_dump = active_slots_from_dump(&full_luks2_dump());
    let listed = sorted_slots(&from_dump);
    assert_eq!(listed.len(), from_dump.len());
    assert!(listed.windows(2).all(|w| w[0] < w[1]));
}
