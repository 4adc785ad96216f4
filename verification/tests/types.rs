use smithay_egui::keysyms;
use smithay_egui::types::{lookup_key, Key, Modifiers, ModifiersState, MouseButton, PointerButton};
use smithay_egui::{convert_button, convert_key, convert_modifiers};

const KEY_F1: u32 = 0xffbe;
const KEY_F2: u32 = 0xffbf;
const KEY_SHIFT_L: u32 = 0xffe1;
const KEY_CONTROL_R: u32 = 0xffe4;
const KEY_SMALL_B: u32 = 0x0062;

fn no_modifiers() -> ModifiersState {
    ModifiersState {
        ctrl: false,
        alt: false,
        shift: false,
        caps_lock: false,
        logo: false,
        num_lock: false,
    }
}

#[test]
fn named_keys_follow_the_platform_symbols() {
    assert_eq!(convert_key(&[keysyms::KEY_Down]), Some(Key::ArrowDown));
    assert_eq!(convert_key(&[keysyms::KEY_Left]), Some(Key::ArrowLeft));
    assert_eq!(convert_key(&[keysyms::KEY_Right]), Some(Key::ArrowRight));
    assert_eq!(convert_key(&[keysyms::KEY_Up]), Some(Key::ArrowUp));
    assert_eq!(convert_key(&[keysyms::KEY_Escape]), Some(Key::Escape));
    assert_eq!(convert_key(&[keysyms::KEY_Tab]), Some(Key::Tab));
    assert_eq!(convert_key(&[keysyms::KEY_BackSpace]), Some(Key::Backspace));
    assert_eq!(convert_key(&[keysyms::KEY_Return]), Some(Key::Enter));
    assert_eq!(convert_key(&[keysyms::KEY_space]), Some(Key::Space));
    assert_eq!(convert_key(&[keysyms::KEY_Insert]), Some(Key::Insert));
    assert_eq!(convert_key(&[keysyms::KEY_Delete]), Some(Key::Delete));
    assert_eq!(convert_key(&[keysyms::KEY_Home]), Some(Key::Home));
    assert_eq!(convert_key(&[keysyms::KEY_End]), Some(Key::End));
    assert_eq!(convert_key(&[keysyms::KEY_Page_Up]), Some(Key::PageUp));
    assert_eq!(convert_key(&[keysyms::KEY_Page_Down]), Some(Key::PageDown));
}

#[test]
fn digits_map_from_main_row_and_keypad() {
    assert_eq!(lookup_key(keysyms::KEY_0), Some(Key::Num0));
    assert_eq!(lookup_key(keysyms::KEY_0 + 1), Some(Key::Num1));
    assert_eq!(lookup_key(keysyms::KEY_0 + 5), Some(Key::Num5));
    assert_eq!(lookup_key(keysyms::KEY_9), Some(Key::Num9));
    assert_eq!(lookup_key(keysyms::KEY_KP_0), Some(Key::Num0));
    assert_eq!(lookup_key(keysyms::KEY_KP_0 + 4), Some(Key::Num4));
    assert_eq!(lookup_key(keysyms::KEY_KP_9), Some(Key::Num9));
}

#[test]
fn letters_map_from_small_and_capital_symbols() {
    assert_eq!(lookup_key(keysyms::KEY_a), Some(Key::A));
    assert_eq!(lookup_key(keysyms::KEY_A), Some(Key::A));
    assert_eq!(lookup_key(0x006b), Some(Key::K));
    assert_eq!(lookup_key(0x004b), Some(Key::K));
    assert_eq!(lookup_key(0x0075), Some(Key::U));
    assert_eq!(lookup_key(0x0077), Some(Key::W));
    assert_eq!(lookup_key(keysyms::KEY_z), Some(Key::Z));
    assert_eq!(lookup_key(keysyms::KEY_Z), Some(Key::Z));
}

#[test]
fn every_letter_has_its_own_key() {
    let expected = [
        Key::A, Key::B, Key::C, Key::D, Key::E, Key::F, Key::G, Key::H, Key::I, Key::J, Key::K,
        Key::L, Key::M, Key::N, Key::O, Key::P, Key::Q, Key::R, Key::S, Key::T, Key::U, Key::V,
        Key::W, Key::X, Key::Y, Key::Z,
    ];
    for (n, key) in expected.iter().enumerate() {
        assert_eq!(lookup_key(keysyms::KEY_a + n as u32), Some(*key));
        assert_eq!(lookup_key(keysyms::KEY_A + n as u32), Some(*key));
    }
}

#[test]
fn every_digit_has_its_own_key() {
    let expected = [
        Key::Num0, Key::Num1, Key::Num2, Key::Num3, Key::Num4, Key::Num5, Key::Num6, Key::Num7,
        Key::Num8, Key::Num9,
    ];
    for (d, key) in expected.iter().enumerate() {
        assert_eq!(lookup_key(keysyms::KEY_0 + d as u32), Some(*key));
        assert_eq!(lookup_key(keysyms::KEY_KP_0 + d as u32), Some(*key));
    }
}

#[test]
fn symbols_next_to_the_ranges_have_no_entry() {
    assert_eq!(lookup_key(keysyms::KEY_0 - 1), None);
    assert_eq!(lookup_key(keysyms::KEY_9 + 1), None);
    assert_eq!(lookup_key(keysyms::KEY_A - 1), None);
    assert_eq!(lookup_key(keysyms::KEY_Z + 1), None);
    assert_eq!(lookup_key(keysyms::KEY_a - 1), None);
    assert_eq!(lookup_key(keysyms::KEY_z + 1), None);
    assert_eq!(lookup_key(keysyms::KEY_KP_0 - 1), None);
    assert_eq!(lookup_key(keysyms::KEY_KP_9 + 1), None);
}

#[test]
fn unmapped_symbols_resolve_to_nothing() {
    assert_eq!(convert_key(&[]), None);
    assert_eq!(convert_key(&[KEY_F1]), None);
    assert_eq!(convert_key(&[KEY_SHIFT_L, KEY_CONTROL_R]), None);
    assert_eq!(convert_key(&[0]), None);
    assert_eq!(convert_key(&[u32::MAX]), None);
}

#[test]
fn first_mapped_symbol_wins() {
    assert_eq!(convert_key(&[keysyms::KEY_a, KEY_SMALL_B]), Some(Key::A));
    assert_eq!(convert_key(&[KEY_SMALL_B, keysyms::KEY_a]), Some(Key::B));
    assert_eq!(convert_key(&[KEY_F1, keysyms::KEY_Tab, keysyms::KEY_a]), Some(Key::Tab));
    assert_eq!(convert_key(&[KEY_F1, KEY_F2, keysyms::KEY_9]), Some(Key::Num9));
}

#[test]
fn buttons_map_to_primary_secondary_middle() {
    assert_eq!(convert_button(MouseButton::Left), Some(PointerButton::Primary));
    assert_eq!(convert_button(MouseButton::Right), Some(PointerButton::Secondary));
    assert_eq!(convert_button(MouseButton::Middle), Some(PointerButton::Middle));
}

#[test]
fn other_buttons_have_no_counterpart() {
    assert_eq!(convert_button(MouseButton::Other(0)), None);
    assert_eq!(convert_button(MouseButton::Other(8)), None);
    assert_eq!(convert_button(MouseButton::Other(255)), None);
}

#[test]
fn modifiers_carry_over_field_by_field() {
    assert_eq!(
        convert_modifiers(no_modifiers()),
        Modifiers { alt: false, ctrl: false, shift: false, mac_cmd: false, command: false }
    );
    let mut host = no_modifiers();
    host.alt = true;
    assert_eq!(
        convert_modifiers(host),
        Modifiers { alt: true, ctrl: false, shift: false, mac_cmd: false, command: false }
    );
    let mut host = no_modifiers();
    host.ctrl = true;
    assert_eq!(
        convert_modifiers(host),
        Modifiers { alt: false, ctrl: true, shift: false, mac_cmd: false, command: false }
    );
    let mut host = no_modifiers();
    host.shift = true;
    assert_eq!(
        convert_modifiers(host),
        Modifiers { alt: false, ctrl: false, shift: true, mac_cmd: false, command: false }
    );
    let mut host = no_modifiers();
    host.logo = true;
    assert_eq!(
        convert_modifiers(host),
        Modifiers { alt: false, ctrl: false, shift: false, mac_cmd: false, command: true }
    );
}

#[test]
fn lock_keys_do_not_reach_the_toolkit() {
    let mut host = no_modifiers();
    host.caps_lock = true;
    host.num_lock = true;
    assert_eq!(
        convert_modifiers(host),
        Modifiers { alt: false, ctrl: false, shift: false, mac_cmd: false, command: false }
    );
}

#[test]
fn key_symbols_have_their_standard_values() {
    assert_eq!(keysyms::KEY_space, 0x20);
    assert_eq!(keysyms::KEY_0, 0x30);
    assert_eq!(keysyms::KEY_9, 0x39);
    assert_eq!(keysyms::KEY_A, 0x41);
    assert_eq!(keysyms::KEY_Z, 0x5a);
    assert_eq!(keysyms::KEY_a, 0x61);
    assert_eq!(keysyms::KEY_z, 0x7a);
    assert_eq!(keysyms::KEY_BackSpace, 0xff08);
    assert_eq!(keysyms::KEY_Tab, 0xff09);
    assert_eq!(keysyms::KEY_Return, 0xff0d);
    assert_eq!(keysyms::KEY_Escape, 0xff1b);
    assert_eq!(keysyms::KEY_Home, 0xff50);
    assert_eq!(keysyms::KEY_Left, 0xff51);
    assert_eq!(keysyms::KEY_Up, 0xff52);
    assert_eq!(keysyms::KEY_Right, 0xff53);
    assert_eq!(keysyms::KEY_Down, 0xff54);
    assert_eq!(keysyms::KEY_Page_Up, 0xff55);
    assert_eq!(keysyms::KEY_Page_Down, 0xff56);
    assert_eq!(keysyms::KEY_End, 0xff57);
    assert_eq!(keysyms::KEY_Insert, 0xff63);
    assert_eq!(keysyms::KEY_KP_0, 0xffb0);
    assert_eq!(keysyms::KEY_KP_9, 0xffb9);
    assert_eq!(keysyms::KEY_Delete, 0xffff);
}
