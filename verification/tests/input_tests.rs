use er_bullet_time::input::{
    is_combo_down, is_combo_pressed, is_input_raw_down, poll_key, GamepadState, InputManager,
    KeyReading, KeyState, RawInput,
};
use er_bullet_time::keys::{parse_input_key, parse_key_combo, parse_key_name, InputKey};
use windows_sys::Win32::UI::Input::XboxController as x;

fn no_input() -> RawInput {
    RawInput { gamepad: None, keyboard: Vec::new() }
}

fn keyboard(readings: &[(i32, i16)]) -> RawInput {
    RawInput {
        gamepad: None,
        keyboard: readings.iter().map(|&(vk, state)| KeyReading { vk, state }).collect(),
    }
}

fn pad(state: GamepadState) -> RawInput {
    RawInput { gamepad: Some(state), keyboard: Vec::new() }
}

fn neutral_pad() -> GamepadState {
    GamepadState {
        buttons: 0,
        left_trigger: 0,
        right_trigger: 0,
        thumb_lx: 0,
        thumb_ly: 0,
        thumb_rx: 0,
        thumb_ry: 0,
    }
}

#[test]
fn test_key_state_helpers() {
    assert!(KeyState::Press.is_down());
    assert!(KeyState::Hold.is_down());
    assert!(!KeyState::Idle.is_down());
    assert!(!KeyState::Release.is_down());

    assert!(KeyState::Press.is_pressed());
    assert!(!KeyState::Hold.is_pressed());

    assert!(KeyState::Release.is_released());
    assert!(KeyState::Idle.is_idle());
}

#[test]
fn test_parse_key_combo() {
    let keys = parse_key_combo("lthumbpress+xa");
    assert_eq!(keys.len(), 2);
    assert_eq!(keys[0], InputKey::pad_left_thumb());
    assert_eq!(keys[1], InputKey::pad_a());
}

#[test]
fn key_state_helpers_are_exclusive() {
    assert!(!KeyState::Release.is_pressed());
    assert!(!KeyState::Idle.is_pressed());
    assert!(!KeyState::Press.is_released());
    assert!(!KeyState::Hold.is_idle());
}

#[test]
fn letters_map_to_virtual_keys() {
    assert_eq!(parse_input_key("a"), Some(InputKey::Keyboard(0x41)));
    assert_eq!(parse_input_key("O"), Some(InputKey::Keyboard(0x4F)));
    assert_eq!(parse_input_key("p"), Some(InputKey::Keyboard(0x50)));
    assert_eq!(parse_input_key("Z"), Some(InputKey::Keyboard(0x5A)));
}

#[test]
fn named_keys() {
    assert_eq!(parse_input_key("space"), Some(InputKey::Keyboard(0x20)));
    assert_eq!(parse_input_key("Tab"), Some(InputKey::Keyboard(0x09)));
    assert_eq!(parse_input_key("escape"), Some(InputKey::Keyboard(0x1B)));
    assert_eq!(parse_input_key("esc"), Some(InputKey::Keyboard(0x1B)));
    assert_eq!(parse_input_key("PadRSUp"), Some(InputKey::PadRSUp));
    assert_eq!(parse_input_key("PadRSDown"), Some(InputKey::PadRSDown));
    assert_eq!(parse_input_key("lsleft"), Some(InputKey::PadLSLeft));
    assert_eq!(parse_input_key("PadLT"), Some(InputKey::PadLT));
    assert_eq!(parse_input_key("rt"), Some(InputKey::PadRT));
    assert_eq!(parse_input_key("l3"), Some(InputKey::pad_left_thumb()));
    assert_eq!(parse_input_key("rthumb"), Some(InputKey::pad_right_thumb()));
    assert_eq!(parse_input_key("PadA"), Some(InputKey::pad_a()));
    assert_eq!(parse_input_key("xb"), Some(InputKey::pad_b()));
    assert_eq!(parse_input_key("PadX"), Some(InputKey::pad_x()));
    assert_eq!(parse_input_key("xy"), Some(InputKey::pad_y()));
    assert_eq!(parse_input_key("PadLB"), Some(InputKey::pad_lb()));
    assert_eq!(parse_input_key("rb"), Some(InputKey::pad_rb()));
    assert_eq!(parse_input_key("PadStart"), Some(InputKey::pad_start()));
    assert_eq!(parse_input_key("back"), Some(InputKey::pad_back()));
    assert_eq!(parse_input_key("PadDpadUp"), Some(InputKey::pad_dpad_up()));
    assert_eq!(parse_input_key("dpaddown"), Some(InputKey::pad_dpad_down()));
    assert_eq!(parse_input_key("PadDpadLeft"), Some(InputKey::pad_dpad_left()));
    assert_eq!(parse_input_key("dpadright"), Some(InputKey::pad_dpad_right()));
}

#[test]
fn digits_function_keys_and_modifiers() {
    assert_eq!(parse_input_key("1"), Some(InputKey::Keyboard(0x31)));
    assert_eq!(parse_input_key("0"), Some(InputKey::Keyboard(0x30)));
    assert_eq!(parse_input_key("9"), Some(InputKey::Keyboard(0x39)));
    assert_eq!(parse_input_key("F1"), Some(InputKey::Keyboard(0x70)));
    assert_eq!(parse_input_key("f12"), Some(InputKey::Keyboard(0x7B)));
    assert_eq!(parse_input_key("F24"), Some(InputKey::Keyboard(0x87)));
    assert_eq!(parse_input_key("Shift"), Some(InputKey::Keyboard(0x10)));
    assert_eq!(parse_input_key("ctrl"), Some(InputKey::Keyboard(0x11)));
    assert_eq!(parse_input_key("Control"), Some(InputKey::Keyboard(0x11)));
    assert_eq!(parse_input_key("ALT"), Some(InputKey::Keyboard(0x12)));
    assert_eq!(
        parse_key_combo("Shift+O"),
        vec![InputKey::Keyboard(0x10), InputKey::Keyboard(0x4F)]
    );
}

#[test]
fn letter_case_and_normalising_first_do_not_matter() {
    for s in ["O", "  PadRSUp ", "LThumbPress", "0X4F", "Shift", "F3", " Esc"] {
        let lowered = s.to_ascii_lowercase();
        assert_eq!(parse_input_key(s), parse_input_key(&lowered));
        assert_eq!(parse_input_key(s), parse_input_key(&s.trim().to_lowercase()));
    }
}

#[test]
fn pad_buttons_carry_the_xinput_masks() {
    assert_eq!(InputKey::pad_a(), InputKey::PadButton(x::XINPUT_GAMEPAD_A));
    assert_eq!(InputKey::pad_b(), InputKey::PadButton(x::XINPUT_GAMEPAD_B));
    assert_eq!(InputKey::pad_x(), InputKey::PadButton(x::XINPUT_GAMEPAD_X));
    assert_eq!(InputKey::pad_y(), InputKey::PadButton(x::XINPUT_GAMEPAD_Y));
    assert_eq!(InputKey::pad_lb(), InputKey::PadButton(x::XINPUT_GAMEPAD_LEFT_SHOULDER));
    assert_eq!(InputKey::pad_rb(), InputKey::PadButton(x::XINPUT_GAMEPAD_RIGHT_SHOULDER));
    assert_eq!(InputKey::pad_start(), InputKey::PadButton(x::XINPUT_GAMEPAD_START));
    assert_eq!(InputKey::pad_back(), InputKey::PadButton(x::XINPUT_GAMEPAD_BACK));
    assert_eq!(InputKey::pad_left_thumb(), InputKey::PadButton(x::XINPUT_GAMEPAD_LEFT_THUMB));
    assert_eq!(InputKey::pad_right_thumb(), InputKey::PadButton(x::XINPUT_GAMEPAD_RIGHT_THUMB));
    assert_eq!(InputKey::pad_dpad_up(), InputKey::PadButton(x::XINPUT_GAMEPAD_DPAD_UP));
    assert_eq!(InputKey::pad_dpad_down(), InputKey::PadButton(x::XINPUT_GAMEPAD_DPAD_DOWN));
    assert_eq!(InputKey::pad_dpad_left(), InputKey::PadButton(x::XINPUT_GAMEPAD_DPAD_LEFT));
    assert_eq!(InputKey::pad_dpad_right(), InputKey::PadButton(x::XINPUT_GAMEPAD_DPAD_RIGHT));
}

#[test]
fn numeric_virtual_key_codes() {
    assert_eq!(parse_input_key("0x4F"), Some(InputKey::Keyboard(0x4F)));
    assert_eq!(parse_input_key("0X50"), Some(InputKey::Keyboard(0x50)));
    assert_eq!(parse_input_key("0x-1a"), Some(InputKey::Keyboard(-26)));
    assert_eq!(parse_input_key("79"), Some(InputKey::Keyboard(79)));
    assert_eq!(parse_input_key("10"), Some(InputKey::Keyboard(10)));
    assert_eq!(parse_input_key("+7"), Some(InputKey::Keyboard(7)));
    assert_eq!(parse_input_key("-5"), Some(InputKey::Keyboard(-5)));
    assert_eq!(parse_input_key("2147483647"), Some(InputKey::Keyboard(i32::MAX)));
    assert_eq!(parse_input_key("-2147483648"), Some(InputKey::Keyboard(i32::MIN)));
    assert_eq!(parse_input_key("0x7fffffff"), Some(InputKey::Keyboard(i32::MAX)));
}

#[test]
fn rejected_key_names() {
    assert_eq!(parse_input_key(""), None);
    assert_eq!(parse_input_key("   "), None);
    assert_eq!(parse_input_key("0x"), None);
    assert_eq!(parse_input_key("+"), None);
    assert_eq!(parse_input_key("-"), None);
    assert_eq!(parse_input_key("abc"), None);
    assert_eq!(parse_input_key("0xg"), None);
    assert_eq!(parse_input_key("2147483648"), None);
    assert_eq!(parse_input_key("-2147483649"), None);
    assert_eq!(parse_input_key("0x80000000"), None);
    assert_eq!(parse_input_key("99999999999999999999"), None);
    assert_eq!(parse_input_key("1 2"), None);
    assert_eq!(parse_input_key("f0"), None);
    assert_eq!(parse_input_key("f25"), None);
    assert_eq!(parse_input_key("shift2"), None);
}

#[test]
fn surrounding_space_and_case_are_ignored() {
    assert_eq!(parse_input_key("  o \t"), Some(InputKey::Keyboard(0x4F)));
    assert_eq!(parse_input_key("\u{00A0}P\n"), Some(InputKey::Keyboard(0x50)));
    assert_eq!(parse_input_key(" LThumbPress "), Some(InputKey::pad_left_thumb()));
    assert_eq!(parse_input_key(" 0x4f "), Some(InputKey::Keyboard(0x4F)));
    // The Kelvin sign lowercases to an ASCII 'k'.
    assert_eq!(parse_input_key("\u{212A}"), Some(InputKey::Keyboard(0x4B)));
}

#[test]
fn key_names_are_looked_up_as_given() {
    assert_eq!(parse_key_name("o"), Some(InputKey::Keyboard(0x4F)));
    assert_eq!(parse_key_name("O"), None);
    assert_eq!(parse_key_name(" o"), None);
    assert_eq!(parse_key_name("padrsup"), Some(InputKey::PadRSUp));
    assert_eq!(parse_key_name("0x10"), Some(InputKey::Keyboard(16)));
}

#[test]
fn combos_skip_unknown_and_empty_pieces() {
    assert_eq!(parse_key_combo("O"), vec![InputKey::Keyboard(0x4F)]);
    assert_eq!(parse_key_combo(""), Vec::<InputKey>::new());
    assert_eq!(parse_key_combo("+"), Vec::<InputKey>::new());
    assert_eq!(
        parse_key_combo("a++b"),
        vec![InputKey::Keyboard(0x41), InputKey::Keyboard(0x42)]
    );
    assert_eq!(
        parse_key_combo("lthumb + nothing + xb"),
        vec![InputKey::pad_left_thumb(), InputKey::pad_b()]
    );
    assert_eq!(
        parse_key_combo("o+o"),
        vec![InputKey::Keyboard(0x4F), InputKey::Keyboard(0x4F)]
    );
}

#[test]
fn combo_of_two_parts_is_their_concatenation() {
    let mut joined = parse_key_combo("lthumbpress+space");
    let tail = parse_key_combo("xa+PadRSUp");
    joined.extend(tail);
    assert_eq!(parse_key_combo("lthumbpress+space+xa+PadRSUp"), joined);
}

#[test]
fn raw_state_of_keyboard_keys() {
    let input = keyboard(&[(0x4F, -32768), (0x50, 1), (0x41, -1), (0x4F, 0)]);
    assert!(is_input_raw_down(InputKey::Keyboard(0x4F), &input));
    assert!(!is_input_raw_down(InputKey::Keyboard(0x50), &input));
    assert!(is_input_raw_down(InputKey::Keyboard(0x41), &input));
    assert!(!is_input_raw_down(InputKey::Keyboard(0x42), &input));
    assert!(!is_input_raw_down(InputKey::PadLT, &input));
}

#[test]
fn raw_state_of_pad_inputs() {
    let mut p = neutral_pad();
    p.buttons = 0x1000 | 0x0040;
    p.left_trigger = 30;
    p.right_trigger = 31;
    p.thumb_ly = 7850;
    p.thumb_lx = -7849;
    p.thumb_ry = -8690;
    p.thumb_rx = 8689;
    let input = pad(p);
    assert!(is_input_raw_down(InputKey::pad_a(), &input));
    assert!(is_input_raw_down(InputKey::pad_left_thumb(), &input));
    assert!(!is_input_raw_down(InputKey::pad_b(), &input));
    assert!(is_input_raw_down(InputKey::PadButton(0x1001), &input));
    assert!(!is_input_raw_down(InputKey::PadLT, &input));
    assert!(is_input_raw_down(InputKey::PadRT, &input));
    assert!(is_input_raw_down(InputKey::PadLSUp, &input));
    assert!(!is_input_raw_down(InputKey::PadLSDown, &input));
    assert!(!is_input_raw_down(InputKey::PadLSLeft, &input));
    assert!(!is_input_raw_down(InputKey::PadLSRight, &input));
    assert!(is_input_raw_down(InputKey::PadRSDown, &input));
    assert!(!is_input_raw_down(InputKey::PadRSUp, &input));
    assert!(!is_input_raw_down(InputKey::PadRSRight, &input));
    assert!(!is_input_raw_down(InputKey::PadRSLeft, &input));
    let mut q = neutral_pad();
    q.thumb_lx = -7850;
    q.thumb_rx = 8690;
    q.thumb_ly = -7850;
    q.thumb_ry = 8690;
    let input = pad(q);
    assert!(is_input_raw_down(InputKey::PadLSLeft, &input));
    assert!(is_input_raw_down(InputKey::PadRSRight, &input));
    assert!(is_input_raw_down(InputKey::PadLSDown, &input));
    assert!(is_input_raw_down(InputKey::PadRSUp, &input));
    assert!(!is_input_raw_down(InputKey::pad_a(), &no_input()));
    assert!(!is_input_raw_down(InputKey::PadRSUp, &no_input()));
}

#[test]
fn poll_key_walks_through_the_four_states() {
    let mut m = InputManager::new();
    let o = InputKey::Keyboard(0x4F);
    let up = keyboard(&[(0x4F, 0)]);
    let down = keyboard(&[(0x4F, i16::MIN)]);
    assert_eq!(m.poll_key(o, &up), KeyState::Idle);
    assert_eq!(m.poll_key(o, &down), KeyState::Press);
    assert_eq!(m.poll_key(o, &down), KeyState::Hold);
    assert_eq!(m.poll_key(o, &up), KeyState::Release);
    assert_eq!(m.poll_key(o, &up), KeyState::Idle);
}

#[test]
fn a_new_key_starts_up() {
    let mut m = InputManager::new();
    assert_eq!(m.poll_key(InputKey::PadRT, &no_input()), KeyState::Idle);
    let mut p = neutral_pad();
    p.right_trigger = 255;
    assert_eq!(m.poll_key(InputKey::PadLT, &pad(p)), KeyState::Idle);
    assert_eq!(m.poll_key(InputKey::PadRT, &pad(p)), KeyState::Press);
}

#[test]
fn user_index_is_kept() {
    let mut m = InputManager::new();
    assert_eq!(m.user_index(), 0);
    m.set_user_index(3);
    assert_eq!(m.user_index(), 3);
}

#[test]
fn shift_combo_needs_both_keys() {
    let mut m = InputManager::new();
    let only_o = keyboard(&[(0x4F, -1)]);
    let both = keyboard(&[(0x10, -1), (0x4F, -1)]);
    assert!(!m.is_combo_pressed("Shift+O", &only_o));
    assert!(m.is_combo_pressed("Shift+O", &both));
}

#[test]
fn combo_pressed_fires_once_then_holds() {
    let mut m = InputManager::new();
    let mut p = neutral_pad();
    p.buttons = 0x0040 | 0x1000;
    let both = pad(p);
    let mut q = neutral_pad();
    q.buttons = 0x0040;
    let only_thumb = pad(q);
    assert!(!m.is_combo_pressed("lthumbpress+xa", &only_thumb));
    assert!(m.is_combo_pressed("lthumbpress+xa", &both));
    assert!(!m.is_combo_pressed("lthumbpress+xa", &both));
    assert!(m.is_combo_down("lthumbpress+xa", &both));
    assert!(!m.is_combo_down("lthumbpress+xa", &only_thumb));
    assert!(m.is_combo_pressed("lthumbpress+xa", &both));
}

#[test]
fn empty_combos_never_trigger() {
    let mut m = InputManager::new();
    let all = keyboard(&[(0x41, -1)]);
    assert!(!m.is_combo_pressed("", &all));
    assert!(!m.is_combo_pressed("nothing", &all));
    assert!(!m.is_combo_down("+", &all));
    assert_eq!(m.poll_key(InputKey::Keyboard(0x41), &all), KeyState::Press);
}

#[test]
fn repeated_key_in_a_combo_counts_once() {
    let mut m = InputManager::new();
    let down = keyboard(&[(0x4F, -1)]);
    assert!(m.is_combo_pressed("o+o", &down));
    assert!(!m.is_combo_pressed("o+o", &down));
}

#[test]
fn combo_polling_updates_single_key_states() {
    let mut m = InputManager::new();
    let down = keyboard(&[(0x4F, -1)]);
    assert!(m.is_combo_down("o", &down));
    assert_eq!(m.poll_key(InputKey::Keyboard(0x4F), &down), KeyState::Hold);
}

#[test]
fn single_key_combo_acts_as_poll() {
    let mut a = InputManager::new();
    let mut b = InputManager::new();
    let down = keyboard(&[(0x50, -1)]);
    let up = keyboard(&[]);
    for input in [&up, &down, &down, &up, &down] {
        let pressed = a.is_combo_pressed("p", input);
        let state = b.poll_key(InputKey::Keyboard(0x50), input);
        assert_eq!(pressed, state.is_pressed());
    }
}

#[test]
fn global_style_functions_create_the_manager() {
    let mut slot: Option<InputManager> = None;
    let down = keyboard(&[(0x4F, -1)]);
    assert_eq!(poll_key(&mut slot, InputKey::Keyboard(0x4F), &down), KeyState::Press);
    assert!(slot.is_some());
    assert!(!is_combo_pressed(&mut slot, "o", &down));
    assert!(is_combo_down(&mut slot, "o", &down));
    let mut other: Option<InputManager> = None;
    assert!(is_combo_pressed(&mut other, "O", &down));
    let mut third: Option<InputManager> = None;
    assert!(is_combo_down(&mut third, "o", &down));
    assert_eq!(third.as_ref().map(|m| m.user_index()), Some(0));
}

#[test]
fn trimming_is_idempotent() {
    use_trim("  \u{2003}lthumb\t ", "lthumb");
    use_trim("", "");
    use_trim(" \n ", "");
    use_trim("a b", "a b");
}

fn use_trim(s: &str, expected: &str) {
    let once = er_bullet_time::text::trim(s);
    assert_eq!(once, expected);
    assert_eq!(er_bullet_time::text::trim(once), once);
}
