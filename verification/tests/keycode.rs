use dshare::keycode::vk_to_evdev;
use dshare::win32::{evdev_to_vk, is_extended_vk};

#[test]
fn letters_map_correctly() {
    assert_eq!(vk_to_evdev(0x48), Some(35)); // H → KEY_H
    assert_eq!(vk_to_evdev(0x49), Some(23)); // I → KEY_I
}

#[test]
fn enter_and_escape() {
    assert_eq!(vk_to_evdev(0x0D), Some(28));
    assert_eq!(vk_to_evdev(0x1B), Some(1));
}

#[test]
fn arrows() {
    assert_eq!(vk_to_evdev(0x25), Some(105));
    assert_eq!(vk_to_evdev(0x26), Some(103));
    assert_eq!(vk_to_evdev(0x27), Some(106));
    assert_eq!(vk_to_evdev(0x28), Some(108));
}

#[test]
fn unknown_returns_none() {
    assert_eq!(vk_to_evdev(0xFFFF), None);
}

#[test]
fn punctuation_and_locks_map() {
    assert_eq!(vk_to_evdev(0xBA), Some(39));
    assert_eq!(vk_to_evdev(0xDE), Some(40));
    assert_eq!(vk_to_evdev(0x14), Some(58));
    assert_eq!(vk_to_evdev(0x7B), Some(88));
}

#[test]
fn evdev_to_vk_reads_the_table_backwards() {
    for vk in 0u32..=0xFF {
        if let Some(code) = vk_to_evdev(vk) {
            if let Some(back) = evdev_to_vk(code) {
                assert_eq!(back as u32, vk);
            }
        }
    }
    assert_eq!(evdev_to_vk(35), Some(0x48));
    assert_eq!(evdev_to_vk(108), Some(0x28));
}

#[test]
fn punctuation_has_no_way_back_yet() {
    assert_eq!(vk_to_evdev(0xBA), Some(39));
    assert_eq!(evdev_to_vk(39), None);
}

#[test]
fn mapped_codes_are_distinct() {
    let mut seen = std::collections::HashSet::new();
    for vk in 0u32..=0xFFFF {
        if let Some(code) = vk_to_evdev(vk) {
            assert!(seen.insert(code), "code {code} twice");
            assert!((1..=248).contains(&code));
        }
    }
    assert_eq!(seen.len(), 85);
}

#[test]
fn extended_keys() {
    assert!(is_extended_vk(0x25));
    assert!(is_extended_vk(0xA5));
    assert!(!is_extended_vk(0x41));
    assert!(!is_extended_vk(0xA4));
}
