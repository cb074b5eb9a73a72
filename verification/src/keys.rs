//! Keys and buttons, and the parser of key names and key combinations.

use vstd::prelude::*;
use crate::text::{chars_eq, chars_of, lowercase, parse_i32, parse_i32_from, to_lowercase, trim, trimmed};
use crate::xinput::{
    gamepad_a, gamepad_b, gamepad_back, gamepad_dpad_down, gamepad_dpad_left, gamepad_dpad_right,
    gamepad_dpad_up, gamepad_left_shoulder, gamepad_left_thumb, gamepad_right_shoulder,
    gamepad_right_thumb, gamepad_start, gamepad_x, gamepad_y,
};

verus! {

/// A keyboard key or a pad input.
#[derive(Clone, Copy, Debug, PartialEq, Eq, Hash, Structural)]
pub enum InputKey {
    /// Virtual key code of a keyboard key (e.g. 0x4F for 'O', 0x50 for 'P').
    Keyboard(i32),
    /// One or more pad buttons, by their bits in the XInput button word.
    PadButton(u16),
    /// Left trigger (LT), past its threshold.
    PadLT,
    /// Right trigger (RT), past its threshold.
    PadRT,
    /// Left stick pushed up.
    PadLSUp,
    /// Left stick pushed down.
    PadLSDown,
    /// Left stick pushed left.
    PadLSLeft,
    /// Left stick pushed right.
    PadLSRight,
    /// Right stick pushed up.
    PadRSUp,
    /// Right stick pushed down.
    PadRSDown,
    /// Right stick pushed left.
    PadRSLeft,
    /// Right stick pushed right.
    PadRSRight,
}

impl InputKey {
    /// The D-pad up button of the pad.
    pub fn pad_dpad_up() -> (k: InputKey)
        ensures
            k == InputKey::PadButton(0x0001),
    {
        InputKey::PadButton(gamepad_dpad_up())
    }

    /// The D-pad down button of the pad.
    pub fn pad_dpad_down() -> (k: InputKey)
        ensures
            k == InputKey::PadButton(0x0002),
    {
        InputKey::PadButton(gamepad_dpad_down())
    }

    /// The D-pad left button of the pad.
    pub fn pad_dpad_left() -> (k: InputKey)
        ensures
            k == InputKey::PadButton(0x0004),
    {
        InputKey::PadButton(gamepad_dpad_left())
    }

    /// The D-pad right button of the pad.
    pub fn pad_dpad_right() -> (k: InputKey)
        ensures
            k == InputKey::PadButton(0x0008),
    {
        InputKey::PadButton(gamepad_dpad_right())
    }

    /// The Start button of the pad.
    pub fn pad_start() -> (k: InputKey)
        ensures
            k == InputKey::PadButton(0x0010),
    {
        InputKey::PadButton(gamepad_start())
    }

    /// The Back button of the pad.
    pub fn pad_back() -> (k: InputKey)
        ensures
            k == InputKey::PadButton(0x0020),
    {
        InputKey::PadButton(gamepad_back())
    }

    /// The left stick press (L3) button of the pad.
    pub fn pad_left_thumb() -> (k: InputKey)
        ensures
            k == InputKey::PadButton(0x0040),
    {
        InputKey::PadButton(gamepad_left_thumb())
    }

    /// The right stick press (R3) button of the pad.
    pub fn pad_right_thumb() -> (k: InputKey)
        ensures
            k == InputKey::PadButton(0x0080),
    {
        InputKey::PadButton(gamepad_right_thumb())
    }

    /// The left shoulder (LB) button of the pad.
    pub fn pad_lb() -> (k: InputKey)
        ensures
            k == InputKey::PadButton(0x0100),
    {
        InputKey::PadButton(gamepad_left_shoulder())
    }

    /// The right shoulder (RB) button of the pad.
    pub fn pad_rb() -> (k: InputKey)
        ensures
            k == InputKey::PadButton(0x0200),
    {
        InputKey::PadButton(gamepad_right_shoulder())
    }

    /// The A button of the pad.
    pub fn pad_a() -> (k: InputKey)
        ensures
            k == InputKey::PadButton(0x1000),
    {
        InputKey::PadButton(gamepad_a())
    }

    /// The B button of the pad.
    pub fn pad_b() -> (k: InputKey)
        ensures
            k == InputKey::PadButton(0x2000),
    {
        InputKey::PadButton(gamepad_b())
    }

    /// The X button of the pad.
    pub fn pad_x() -> (k: InputKey)
        ensures
            k == InputKey::PadButton(0x4000),
    {
        InputKey::PadButton(gamepad_x())
    }

    /// The Y button of the pad.
    pub fn pad_y() -> (k: InputKey)
        ensures
            k == InputKey::PadButton(0x8000),
    {
        InputKey::PadButton(gamepad_y())
    }

    /// An integer that stands for this key; distinct keys have distinct codes.
    pub fn code(&self) -> (c: u64)
        ensures
            c == key_code(*self),
    {
        match *self {
            InputKey::Keyboard(vk) => (vk as i64 + 0x8000_0000) as u64,
            InputKey::PadButton(mask) => 0x1_0000_0000u64 + mask as u64,
            InputKey::PadLT => 0x2_0000_0000u64,
            InputKey::PadRT => 0x2_0000_0001u64,
            InputKey::PadLSUp => 0x2_0000_0002u64,
            InputKey::PadLSDown => 0x2_0000_0003u64,
            InputKey::PadLSLeft => 0x2_0000_0004u64,
            InputKey::PadLSRight => 0x2_0000_0005u64,
            InputKey::PadRSUp => 0x2_0000_0006u64,
            InputKey::PadRSDown => 0x2_0000_0007u64,
            InputKey::PadRSLeft => 0x2_0000_0008u64,
            InputKey::PadRSRight => 0x2_0000_0009u64,
        }
    }
}

/// The code of a key: keyboard keys take `vk + 2^31` (below 2^32), pad buttons
/// `2^32 + mask`, and the analog directions the codes from `2^33` on.
pub open spec fn key_code(k: InputKey) -> u64 {
    match k {
        InputKey::Keyboard(vk) => (vk as int + 0x8000_0000) as u64,
        InputKey::PadButton(mask) => (0x1_0000_0000 + mask as int) as u64,
        InputKey::PadLT => 0x2_0000_0000u64,
        InputKey::PadRT => 0x2_0000_0001u64,
        InputKey::PadLSUp => 0x2_0000_0002u64,
        InputKey::PadLSDown => 0x2_0000_0003u64,
        InputKey::PadLSLeft => 0x2_0000_0004u64,
        InputKey::PadLSRight => 0x2_0000_0005u64,
        InputKey::PadRSUp => 0x2_0000_0006u64,
        InputKey::PadRSDown => 0x2_0000_0007u64,
        InputKey::PadRSLeft => 0x2_0000_0008u64,
        InputKey::PadRSRight => 0x2_0000_0009u64,
    }
}

/// Distinct keys have distinct codes.
pub proof fn lemma_key_code_injective(a: InputKey, b: InputKey)
    ensures
        key_code(a) == key_code(b) ==> a == b,
{
}

/// The keys that have a name of more than one character, by their lowercase
/// names: space, tab, escape, the modifiers Shift, Ctrl and Alt, the function keys
/// F1 to F24 (virtual keys 0x70 to 0x87), and the pad inputs.
pub open spec fn named_key(n: Seq<char>) -> Option<InputKey> {
    if n == "space"@ {
        Some(InputKey::Keyboard(0x20))
    } else if n == "tab"@ {
        Some(InputKey::Keyboard(0x09))
    } else if n == "escape"@ || n == "esc"@ {
        Some(InputKey::Keyboard(0x1B))
    } else if n == "shift"@ {
        Some(InputKey::Keyboard(0x10))
    } else if n == "ctrl"@ || n == "control"@ {
        Some(InputKey::Keyboard(0x11))
    } else if n == "alt"@ {
        Some(InputKey::Keyboard(0x12))
    } else if n == "f1"@ {
        Some(InputKey::Keyboard(0x70))
    } else if n == "f2"@ {
        Some(InputKey::Keyboard(0x71))
    } else if n == "f3"@ {
        Some(InputKey::Keyboard(0x72))
    } else if n == "f4"@ {
        Some(InputKey::Keyboard(0x73))
    } else if n == "f5"@ {
        Some(InputKey::Keyboard(0x74))
    } else if n == "f6"@ {
        Some(InputKey::Keyboard(0x75))
    } else if n == "f7"@ {
        Some(InputKey::Keyboard(0x76))
    } else if n == "f8"@ {
        Some(InputKey::Keyboard(0x77))
    } else if n == "f9"@ {
        Some(InputKey::Keyboard(0x78))
    } else if n == "f10"@ {
        Some(InputKey::Keyboard(0x79))
    } else if n == "f11"@ {
        Some(InputKey::Keyboard(0x7A))
    } else if n == "f12"@ {
        Some(InputKey::Keyboard(0x7B))
    } else if n == "f13"@ {
        Some(InputKey::Keyboard(0x7C))
    } else if n == "f14"@ {
        Some(InputKey::Keyboard(0x7D))
    } else if n == "f15"@ {
        Some(InputKey::Keyboard(0x7E))
    } else if n == "f16"@ {
        Some(InputKey::Keyboard(0x7F))
    } else if n == "f17"@ {
        Some(InputKey::Keyboard(0x80))
    } else if n == "f18"@ {
        Some(InputKey::Keyboard(0x81))
    } else if n == "f19"@ {
        Some(InputKey::Keyboard(0x82))
    } else if n == "f20"@ {
        Some(InputKey::Keyboard(0x83))
    } else if n == "f21"@ {
        Some(InputKey::Keyboard(0x84))
    } else if n == "f22"@ {
        Some(InputKey::Keyboard(0x85))
    } else if n == "f23"@ {
        Some(InputKey::Keyboard(0x86))
    } else if n == "f24"@ {
        Some(InputKey::Keyboard(0x87))
    } else if n == "lthumbpress"@ || n == "lthumb"@ || n == "padlthumb"@ || n == "l3"@ {
        Some(InputKey::PadButton(0x0040))
    } else if n == "rthumbpress"@ || n == "rthumb"@ || n == "padrthumb"@ || n == "r3"@ {
        Some(InputKey::PadButton(0x0080))
    } else if n == "xa"@ || n == "pada"@ {
        Some(InputKey::PadButton(0x1000))
    } else if n == "xb"@ || n == "padb"@ {
        Some(InputKey::PadButton(0x2000))
    } else if n == "xx"@ || n == "padx"@ {
        Some(InputKey::PadButton(0x4000))
    } else if n == "xy"@ || n == "pady"@ {
        Some(InputKey::PadButton(0x8000))
    } else if n == "lb"@ || n == "padlb"@ {
        Some(InputKey::PadButton(0x0100))
    } else if n == "rb"@ || n == "padrb"@ {
        Some(InputKey::PadButton(0x0200))
    } else if n == "lt"@ || n == "padlt"@ {
        Some(InputKey::PadLT)
    } else if n == "rt"@ || n == "padrt"@ {
        Some(InputKey::PadRT)
    } else if n == "start"@ || n == "padstart"@ {
        Some(InputKey::PadButton(0x0010))
    } else if n == "back"@ || n == "padback"@ {
        Some(InputKey::PadButton(0x0020))
    } else if n == "dpadup"@ || n == "paddpadup"@ {
        Some(InputKey::PadButton(0x0001))
    } else if n == "dpaddown"@ || n == "paddpaddown"@ {
        Some(InputKey::PadButton(0x0002))
    } else if n == "dpadleft"@ || n == "paddpadleft"@ {
        Some(InputKey::PadButton(0x0004))
    } else if n == "dpadright"@ || n == "paddpadright"@ {
        Some(InputKey::PadButton(0x0008))
    } else if n == "lsup"@ || n == "padlsup"@ {
        Some(InputKey::PadLSUp)
    } else if n == "lsdown"@ || n == "padlsdown"@ {
        Some(InputKey::PadLSDown)
    } else if n == "lsleft"@ || n == "padlsleft"@ {
        Some(InputKey::PadLSLeft)
    } else if n == "lsright"@ || n == "padlsright"@ {
        Some(InputKey::PadLSRight)
    } else if n == "rsup"@ || n == "padrsup"@ {
        Some(InputKey::PadRSUp)
    } else if n == "rsdown"@ || n == "padrsdown"@ {
        Some(InputKey::PadRSDown)
    } else if n == "rsleft"@ || n == "padrsleft"@ {
        Some(InputKey::PadRSLeft)
    } else if n == "rsright"@ || n == "padrsright"@ {
        Some(InputKey::PadRSRight)
    } else {
        None
    }
}

/// The key that a trimmed, lowercase key name stands for: a single letter `a`-`z`
/// is the keyboard key of that letter (virtual key 0x41-0x5A), a single digit
/// `0`-`9` the keyboard key of that digit (virtual key 0x30-0x39), then the named
/// keys, then a hexadecimal virtual key code after `0x`, then a decimal one of
/// two or more digits.
pub open spec fn key_for_name(n: Seq<char>) -> Option<InputKey> {
    if n.len() == 1 && 'a' <= n[0] && n[0] <= 'z' {
        Some(InputKey::Keyboard((n[0] as int - 'a' as int + 0x41) as i32))
    } else if n.len() == 1 && '0' <= n[0] && n[0] <= '9' {
        Some(InputKey::Keyboard((n[0] as int - '0' as int + 0x30) as i32))
    } else if named_key(n) is Some {
        named_key(n)
    } else if n.len() >= 2 && n[0] == '0' && n[1] == 'x' {
        match parse_i32(n.skip(2), 16) {
            Some(vk) => Some(InputKey::Keyboard(vk)),
            None => None,
        }
    } else {
        match parse_i32(n, 10) {
            Some(vk) => Some(InputKey::Keyboard(vk)),
            None => None,
        }
    }
}

/// The key that `parse_input_key` gives for the text `s`: the name is trimmed and
/// lowercased, then looked up.
pub open spec fn parsed_key(s: Seq<char>) -> Option<InputKey> {
    key_for_name(lowercase(trimmed(s)))
}

fn named_key_of(v: &Vec<char>) -> (r: Option<InputKey>)
    ensures
        r == named_key(v@),
{
    if chars_eq(v, "space") {
        Some(InputKey::Keyboard(0x20))
    } else if chars_eq(v, "tab") {
        Some(InputKey::Keyboard(0x09))
    } else if chars_eq(v, "escape") || chars_eq(v, "esc") {
        Some(InputKey::Keyboard(0x1B))
    } else if chars_eq(v, "shift") {
        Some(InputKey::Keyboard(0x10))
    } else if chars_eq(v, "ctrl") || chars_eq(v, "control") {
        Some(InputKey::Keyboard(0x11))
    } else if chars_eq(v, "alt") {
        Some(InputKey::Keyboard(0x12))
    } else if chars_eq(v, "f1") {
        Some(InputKey::Keyboard(0x70))
    } else if chars_eq(v, "f2") {
        Some(InputKey::Keyboard(0x71))
    } else if chars_eq(v, "f3") {
        Some(InputKey::Keyboard(0x72))
    } else if chars_eq(v, "f4") {
        Some(InputKey::Keyboard(0x73))
    } else if chars_eq(v, "f5") {
        Some(InputKey::Keyboard(0x74))
    } else if chars_eq(v, "f6") {
        Some(InputKey::Keyboard(0x75))
    } else if chars_eq(v, "f7") {
        Some(InputKey::Keyboard(0x76))
    } else if chars_eq(v, "f8") {
        Some(InputKey::Keyboard(0x77))
    } else if chars_eq(v, "f9") {
        Some(InputKey::Keyboard(0x78))
    } else if chars_eq(v, "f10") {
        Some(InputKey::Keyboard(0x79))
    } else if chars_eq(v, "f11") {
        Some(InputKey::Keyboard(0x7A))
    } else if chars_eq(v, "f12") {
        Some(InputKey::Keyboard(0x7B))
    } else if chars_eq(v, "f13") {
        Some(InputKey::Keyboard(0x7C))
    } else if chars_eq(v, "f14") {
        Some(InputKey::Keyboard(0x7D))
    } else if chars_eq(v, "f15") {
        Some(InputKey::Keyboard(0x7E))
    } else if chars_eq(v, "f16") {
        Some(InputKey::Keyboard(0x7F))
    } else if chars_eq(v, "f17") {
        Some(InputKey::Keyboard(0x80))
    } else if chars_eq(v, "f18") {
        Some(InputKey::Keyboard(0x81))
    } else if chars_eq(v, "f19") {
        Some(InputKey::Keyboard(0x82))
    } else if chars_eq(v, "f20") {
        Some(InputKey::Keyboard(0x83))
    } else if chars_eq(v, "f21") {
        Some(InputKey::Keyboard(0x84))
    } else if chars_eq(v, "f22") {
        Some(InputKey::Keyboard(0x85))
    } else if chars_eq(v, "f23") {
        Some(InputKey::Keyboard(0x86))
    } else if chars_eq(v, "f24") {
        Some(InputKey::Keyboard(0x87))
    } else if chars_eq(v, "lthumbpress") || chars_eq(v, "lthumb") || chars_eq(v, "padlthumb") || chars_eq(v, "l3") {
        Some(InputKey::pad_left_thumb())
    } else if chars_eq(v, "rthumbpress") || chars_eq(v, "rthumb") || chars_eq(v, "padrthumb") || chars_eq(v, "r3") {
        Some(InputKey::pad_right_thumb())
    } else if chars_eq(v, "xa") || chars_eq(v, "pada") {
        Some(InputKey::pad_a())
    } else if chars_eq(v, "xb") || chars_eq(v, "padb") {
        Some(InputKey::pad_b())
    } else if chars_eq(v, "xx") || chars_eq(v, "padx") {
        Some(InputKey::pad_x())
    } else if chars_eq(v, "xy") || chars_eq(v, "pady") {
        Some(InputKey::pad_y())
    } else if chars_eq(v, "lb") || chars_eq(v, "padlb") {
        Some(InputKey::pad_lb())
    } else if chars_eq(v, "rb") || chars_eq(v, "padrb") {
        Some(InputKey::pad_rb())
    } else if chars_eq(v, "lt") || chars_eq(v, "padlt") {
        Some(InputKey::PadLT)
    } else if chars_eq(v, "rt") || chars_eq(v, "padrt") {
        Some(InputKey::PadRT)
    } else if chars_eq(v, "start") || chars_eq(v, "padstart") {
        Some(InputKey::pad_start())
    } else if chars_eq(v, "back") || chars_eq(v, "padback") {
        Some(InputKey::pad_back())
    } else if chars_eq(v, "dpadup") || chars_eq(v, "paddpadup") {
        Some(InputKey::pad_dpad_up())
    } else if chars_eq(v, "dpaddown") || chars_eq(v, "paddpaddown") {
        Some(InputKey::pad_dpad_down())
    } else if chars_eq(v, "dpadleft") || chars_eq(v, "paddpadleft") {
        Some(InputKey::pad_dpad_left())
    } else if chars_eq(v, "dpadright") || chars_eq(v, "paddpadright") {
        Some(InputKey::pad_dpad_right())
    } else if chars_eq(v, "lsup") || chars_eq(v, "padlsup") {
        Some(InputKey::PadLSUp)
    } else if chars_eq(v, "lsdown") || chars_eq(v, "padlsdown") {
        Some(InputKey::PadLSDown)
    } else if chars_eq(v, "lsleft") || chars_eq(v, "padlsleft") {
        Some(InputKey::PadLSLeft)
    } else if chars_eq(v, "lsright") || chars_eq(v, "padlsright") {
        Some(InputKey::PadLSRight)
    } else if chars_eq(v, "rsup") || chars_eq(v, "padrsup") {
        Some(InputKey::PadRSUp)
    } else if chars_eq(v, "rsdown") || chars_eq(v, "padrsdown") {
        Some(InputKey::PadRSDown)
    } else if chars_eq(v, "rsleft") || chars_eq(v, "padrsleft") {
        Some(InputKey::PadRSLeft)
    } else if chars_eq(v, "rsright") || chars_eq(v, "padrsright") {
        Some(InputKey::PadRSRight)
    } else {
        None
    }
}

/// Looks up a key name that is already trimmed and lowercase.
pub fn parse_key_name(name: &str) -> (r: Option<InputKey>)
    ensures
        r == key_for_name(name@),
{
    let v = chars_of(name);
    if v.len() == 1 && 'a' <= v[0] && v[0] <= 'z' {
        return Some(InputKey::Keyboard((v[0] as u32 - 'a' as u32 + 0x41) as i32));
    }
    if v.len() == 1 && '0' <= v[0] && v[0] <= '9' {
        return Some(InputKey::Keyboard((v[0] as u32 - '0' as u32 + 0x30) as i32));
    }
    let named = named_key_of(&v);
    if named.is_some() {
        return named;
    }
    let number = if v.len() >= 2 && v[0] == '0' && v[1] == 'x' {
        parse_i32_from(&v, 2, 16)
    } else {
        assert(v@.skip(0) =~= v@);
        parse_i32_from(&v, 0, 10)
    };
    match number {
        Some(vk) => Some(InputKey::Keyboard(vk)),
        None => None,
    }
}

/// Converts a key name to the key it stands for, ignoring surrounding white space
/// and case.
pub fn parse_input_key(s: &str) -> (r: Option<InputKey>)
    ensures
        r == parsed_key(s@),
{
    let t = trim(s);
    let lower = to_lowercase(t);
    parse_key_name(lower.as_str())
}

/// The pieces of `s` between occurrences of `sep`, as `str::split` yields them:
/// one more piece than there are separators, empty pieces included.
pub open spec fn split_on(s: Seq<char>, sep: char) -> Seq<Seq<char>>
    decreases s.len(),
{
    if s.len() == 0 {
        seq![Seq::<char>::empty()]
    } else {
        let parts = split_on(s.drop_last(), sep);
        if s.last() == sep {
            parts.push(Seq::<char>::empty())
        } else {
            parts.update(parts.len() - 1, parts.last().push(s.last()))
        }
    }
}

/// The keys of the pieces that name one, in order.
pub open spec fn keys_of(pieces: Seq<Seq<char>>) -> Seq<InputKey>
    decreases pieces.len(),
{
    if pieces.len() == 0 {
        Seq::<InputKey>::empty()
    } else {
        keys_of(pieces.drop_last()) + match parsed_key(pieces.last()) {
            Some(k) => seq![k],
            None => Seq::<InputKey>::empty(),
        }
    }
}

/// The keys of a combination such as `lthumbpress+xa`: the pieces between `+`
/// signs that name a key, in order; the others are left out.
pub open spec fn combo_keys(s: Seq<char>) -> Seq<InputKey> {
    keys_of(split_on(s, '+'))
}

/// Parses a key combination whose keys are separated by `+` (e.g. `lthumbpress+xa`).
pub fn parse_key_combo(s: &str) -> (keys: Vec<InputKey>)
    ensures
        keys@ == combo_keys(s@),
{
    let v = chars_of(s);
    let n = v.len();
    let mut keys: Vec<InputKey> = Vec::new();
    let mut start: usize = 0;
    let mut i: usize = 0;
    let ghost mut done: Seq<Seq<char>> = Seq::empty();
    assert(s@.take(0) =~= Seq::<char>::empty());
    assert(split_on(s@.take(0), '+') =~= done.push(s@.subrange(0, 0)));
    while i < n
        invariant
            n == s@.len(),
            v@ == s@,
            start <= i <= n,
            split_on(s@.take(i as int), '+') == done.push(s@.subrange(start as int, i as int)),
            keys@ == keys_of(done),
        decreases n - i,
    {
        assert(s@.take(i + 1).drop_last() =~= s@.take(i as int));
        assert(s@.take(i + 1).last() == v@[i as int]);
        if v[i] == '+' {
            let piece = s.substring_char(start, i);
            let parsed = parse_input_key(piece);
            let ghost before = done;
            proof {
                done = done.push(s@.subrange(start as int, i as int));
                assert(done.drop_last() =~= before);
            }
            match parsed {
                Some(k) => {
                    keys.push(k);
                },
                None => {},
            }
            assert(keys@ =~= keys_of(done));
            start = i + 1;
            assert(s@.subrange(start as int, i + 1) =~= Seq::<char>::empty());
            assert(split_on(s@.take(i + 1), '+') =~= done.push(s@.subrange(start as int, i + 1)));
        } else {
            assert(s@.subrange(start as int, i as int).push(s@[i as int]) =~= s@.subrange(start as int, i + 1));
            assert(split_on(s@.take(i + 1), '+') =~= done.push(s@.subrange(start as int, i + 1)));
        }
        i = i + 1;
    }
    let piece = s.substring_char(start, n);
    let parsed = parse_input_key(piece);
    let ghost all = done.push(s@.subrange(start as int, n as int));
    assert(all.drop_last() =~= done);
    match parsed {
        Some(k) => {
            keys.push(k);
        },
        None => {},
    }
    assert(s@.take(n as int) =~= s@);
    assert(keys@ =~= keys_of(all));
    keys
}

} // verus!
