use kbot::vk_codes::{
    binek_vk_from_name, mount_key_action, parse_key_combo, pickup_vk, pot_vk, skill_key_action, vk_from_name,
    vk_from_upper, KeyAction,
};
use kbot::pm_ai::{char_to_vk, pm_reply_keys, pm_reply_target};

#[test]
fn vk_names_letters_digits_and_function_keys() {
    assert_eq!(vk_from_name("A"), Some(0x41));
    assert_eq!(vk_from_name("z"), Some(0x5A));
    assert_eq!(vk_from_name("5"), Some(0x35));
    assert_eq!(vk_from_name("F1"), Some(0x70));
    assert_eq!(vk_from_name("f12"), Some(0x7B));
    assert_eq!(vk_from_name("F10"), Some(0x79));
    assert_eq!(vk_from_name("F13"), None);
    assert_eq!(vk_from_name("F0"), None);
}

#[test]
fn vk_names_ignore_case_and_surrounding_spaces() {
    assert_eq!(vk_from_name(" f1 "), Some(0x70));
    assert_eq!(vk_from_name("ctrl"), vk_from_name("CTRL"));
    assert_eq!(vk_from_name("Space"), Some(0x20));
    assert_eq!(vk_from_name("  enter"), Some(0x0D));
}

#[test]
fn vk_names_special_and_numpad() {
    assert_eq!(vk_from_name("CONTROL"), Some(0x11));
    assert_eq!(vk_from_name("shift"), Some(0x10));
    assert_eq!(vk_from_name("menu"), Some(0x12));
    assert_eq!(vk_from_name("esc"), Some(0x1B));
    assert_eq!(vk_from_name("BACK"), Some(0x08));
    assert_eq!(vk_from_name("del"), Some(0x2E));
    assert_eq!(vk_from_name("pgdn"), Some(0x22));
    assert_eq!(vk_from_name("left"), Some(0x25));
    assert_eq!(vk_from_name("num5"), Some(0x65));
    assert_eq!(vk_from_name("NUMPAD9"), Some(0x69));
    assert_eq!(vk_from_name("num"), None);
    assert_eq!(vk_from_name("xyz"), None);
    assert_eq!(vk_from_name(""), None);
    assert_eq!(vk_from_upper("TAB"), Some(0x09));
    assert_eq!(vk_from_upper("tab"), None);
}

#[test]
fn mount_key_defaults_to_g() {
    assert_eq!(binek_vk_from_name(""), 0x47);
    assert_eq!(binek_vk_from_name("???"), 0x47);
    assert_eq!(binek_vk_from_name("h"), 0x48);
}

#[test]
fn key_combos_split_modifiers_and_main_key() {
    assert_eq!(parse_key_combo("Ctrl+G"), (vec![0x11], Some(0x47)));
    assert_eq!(parse_key_combo("ctrl + shift + 1"), (vec![0x11, 0x10], Some(0x31)));
    assert_eq!(parse_key_combo("F5"), (vec![], Some(0x74)));
    assert_eq!(parse_key_combo("Alt"), (vec![0x12], None));
    assert_eq!(parse_key_combo("A+B"), (vec![], Some(0x42)));
    assert_eq!(parse_key_combo(""), (vec![], None));
}

#[test]
fn skill_and_mount_actions() {
    assert_eq!(skill_key_action(""), None);
    assert_eq!(skill_key_action("F1"), Some(KeyAction::Press(0x70)));
    assert_eq!(skill_key_action("Ctrl+G"), Some(KeyAction::Combo(0x11, 0x47)));
    assert_eq!(mount_key_action("Ctrl+G"), KeyAction::Combo(0x11, 0x47));
    assert_eq!(mount_key_action("H"), KeyAction::Press(0x48));
    assert_eq!(mount_key_action(""), KeyAction::Press(0x47));
}

#[test]
fn pickup_and_potion_keys() {
    assert_eq!(pickup_vk("z"), 0x5A);
    assert_eq!(pickup_vk("X"), 0x58);
    assert_eq!(pickup_vk("space"), 0x20);
    assert_eq!(pickup_vk("q"), 0x5A);
    assert_eq!(pot_vk("2"), 0x32);
    assert_eq!(pot_vk("bogus"), 0x31);
}

#[test]
fn reply_characters_map_to_keys() {
    assert_eq!(char_to_vk('a'), 0x41);
    assert_eq!(char_to_vk('Z'), 0x5A);
    assert_eq!(char_to_vk('7'), 0x37);
    assert_eq!(char_to_vk(' '), 0x20);
    assert_eq!(char_to_vk('.'), 0xBE);
    assert_eq!(char_to_vk('ş'), 0x53);
    assert_eq!(char_to_vk('İ'), 0x49);
    assert_eq!(char_to_vk('?'), 0);
}

#[test]
fn reply_keys_skip_unknown_characters_and_end_with_enter() {
    assert_eq!(pm_reply_keys("hi!"), vec![0x48, 0x49, 0x0D]);
    assert_eq!(pm_reply_keys(""), vec![0x0D]);
    assert_eq!(pm_reply_keys("a b"), vec![0x41, 0x20, 0x42, 0x0D]);
}

#[test]
fn reply_target_is_region_centre() {
    assert_eq!(pm_reply_target(true, "selam", (100, 200, 300, 400)), Some((200, 300)));
    assert_eq!(pm_reply_target(false, "selam", (100, 200, 300, 400)), None);
    assert_eq!(pm_reply_target(true, "", (100, 200, 300, 400)), None);
    assert_eq!(pm_reply_target(true, "selam", (300, 200, 100, 400)), None);
}

#[test]
fn white_space_is_what_std_calls_white_space() {
    for n in 0u32..=0x10FFFF {
        if let Some(c) = char::from_u32(n) {
            let s = c.to_string();
            assert_eq!(kbot::text::trim(&s).is_empty(), c.is_whitespace(), "U+{:04X}", n);
        }
    }
}
