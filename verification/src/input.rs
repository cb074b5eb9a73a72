//! Frame-based key state tracking for keyboard keys and pad inputs.

use vstd::prelude::*;
use std::collections::HashMap;
use crate::keys::{combo_keys, key_code, lemma_key_code_injective, parse_key_combo, InputKey};
use crate::xinput::{left_thumb_deadzone, right_thumb_deadzone, trigger_threshold};

verus! {

broadcast use vstd::std_specs::hash::group_hash_axioms;

/// The state of a key or button across two consecutive frames.
#[derive(Clone, Copy, Debug, PartialEq, Eq, Structural)]
pub enum KeyState {
    /// Key is up and was up in the previous frame.
    Idle,
    /// Key went from up to down in this frame (just pressed).
    Press,
    /// Key is down and was down in the previous frame (held).
    Hold,
    /// Key went from down to up in this frame (just released).
    Release,
}

impl KeyState {
    /// The state of a key that was `prev_down` in the previous frame and is
    /// `curr_down` in this one.
    pub open spec fn from_transition(prev_down: bool, curr_down: bool) -> KeyState {
        if !prev_down && !curr_down {
            KeyState::Idle
        } else if !prev_down && curr_down {
            KeyState::Press
        } else if prev_down && curr_down {
            KeyState::Hold
        } else {
            KeyState::Release
        }
    }

    /// The key is down in this frame (just pressed or held).
    pub fn is_down(&self) -> (b: bool)
        ensures
            b == (*self == KeyState::Press || *self == KeyState::Hold),
    {
        match self {
            KeyState::Press | KeyState::Hold => true,
            _ => false,
        }
    }

    /// The key was pressed in this frame.
    pub fn is_pressed(&self) -> (b: bool)
        ensures
            b == (*self == KeyState::Press),
    {
        match self {
            KeyState::Press => true,
            _ => false,
        }
    }

    /// The key was released in this frame.
    pub fn is_released(&self) -> (b: bool)
        ensures
            b == (*self == KeyState::Release),
    {
        match self {
            KeyState::Release => true,
            _ => false,
        }
    }

    /// The key is up and was up.
    pub fn is_idle(&self) -> (b: bool)
        ensures
            b == (*self == KeyState::Idle),
    {
        match self {
            KeyState::Idle => true,
            _ => false,
        }
    }
}

/// The state of a pad as XInput reports it (`XINPUT_GAMEPAD`).
#[derive(Clone, Copy, Debug, PartialEq, Eq, Structural)]
pub struct GamepadState {
    /// Bits of the buttons that are down.
    pub buttons: u16,
    /// Left trigger, 0 to 255.
    pub left_trigger: u8,
    /// Right trigger, 0 to 255.
    pub right_trigger: u8,
    /// Left stick, horizontal axis.
    pub thumb_lx: i16,
    /// Left stick, vertical axis.
    pub thumb_ly: i16,
    /// Right stick, horizontal axis.
    pub thumb_rx: i16,
    /// Right stick, vertical axis.
    pub thumb_ry: i16,
}

/// What `GetAsyncKeyState` returned for a virtual key.
#[derive(Clone, Copy, Debug, PartialEq, Eq, Structural)]
pub struct KeyReading {
    /// The virtual key code.
    pub vk: i32,
    /// The value read; its most significant bit is set while the key is down.
    pub state: i16,
}

/// The raw input of one frame: the pad state, when a pad is connected, and the
/// keyboard readings taken.
pub struct RawInput {
    /// The state of the pad, `None` when it could not be read.
    pub gamepad: Option<GamepadState>,
    /// Readings of keyboard keys; a key without a reading counts as up.
    pub keyboard: Vec<KeyReading>,
}

/// The reading of `vk` among `readings` (the first one for it), 0 when there is none.
pub open spec fn keyboard_state(readings: Seq<KeyReading>, vk: i32) -> i16
    decreases readings.len(),
{
    if readings.len() == 0 {
        0
    } else if readings[0].vk == vk {
        readings[0].state
    } else {
        keyboard_state(readings.drop_first(), vk)
    }
}

/// Whether `key` is down in `input`: a keyboard key when the most significant bit
/// of its reading is set; a pad button when one of its bits is set; a trigger past
/// the trigger threshold (30); a stick direction past the stick's dead zone
/// (7849 left, 8689 right). Pad inputs are up when there is no pad.
pub open spec fn raw_down(key: InputKey, input: RawInput) -> bool {
    match key {
        InputKey::Keyboard(vk) => keyboard_state(input.keyboard@, vk) < 0,
        InputKey::PadButton(mask) => input.gamepad matches Some(p) && p.buttons & mask != 0,
        InputKey::PadLT => input.gamepad matches Some(p) && p.left_trigger > 30,
        InputKey::PadRT => input.gamepad matches Some(p) && p.right_trigger > 30,
        InputKey::PadLSUp => input.gamepad matches Some(p) && p.thumb_ly > 7849,
        InputKey::PadLSDown => input.gamepad matches Some(p) && p.thumb_ly < -7849,
        InputKey::PadLSLeft => input.gamepad matches Some(p) && p.thumb_lx < -7849,
        InputKey::PadLSRight => input.gamepad matches Some(p) && p.thumb_lx > 7849,
        InputKey::PadRSUp => input.gamepad matches Some(p) && p.thumb_ry > 8689,
        InputKey::PadRSDown => input.gamepad matches Some(p) && p.thumb_ry < -8689,
        InputKey::PadRSLeft => input.gamepad matches Some(p) && p.thumb_rx < -8689,
        InputKey::PadRSRight => input.gamepad matches Some(p) && p.thumb_rx > 8689,
    }
}

fn keyboard_reading(readings: &Vec<KeyReading>, vk: i32) -> (state: i16)
    ensures
        state == keyboard_state(readings@, vk),
{
    let n = readings.len();
    let mut i: usize = 0;
    assert(readings@.skip(0) =~= readings@);
    while i < n
        invariant
            n == readings@.len(),
            i <= n,
            keyboard_state(readings@, vk) == keyboard_state(readings@.skip(i as int), vk),
        decreases n - i,
    {
        if readings[i].vk == vk {
            return readings[i].state;
        }
        assert(readings@.skip(i as int).drop_first() =~= readings@.skip(i + 1));
        i = i + 1;
    }
    0
}

/// Whether `key` is down in this frame's raw input.
pub fn is_input_raw_down(key: InputKey, input: &RawInput) -> (down: bool)
    ensures
        down == raw_down(key, *input),
{
    match key {
        InputKey::Keyboard(vk) => keyboard_reading(&input.keyboard, vk) < 0,
        InputKey::PadButton(mask) => match input.gamepad {
            Some(p) => p.buttons & mask != 0,
            None => false,
        },
        InputKey::PadLT => match input.gamepad {
            Some(p) => p.left_trigger > trigger_threshold() as u8,
            None => false,
        },
        InputKey::PadRT => match input.gamepad {
            Some(p) => p.right_trigger > trigger_threshold() as u8,
            None => false,
        },
        InputKey::PadLSUp => match input.gamepad {
            Some(p) => p.thumb_ly > left_thumb_deadzone() as i16,
            None => false,
        },
        InputKey::PadLSDown => match input.gamepad {
            Some(p) => p.thumb_ly < -(left_thumb_deadzone() as i16),
            None => false,
        },
        InputKey::PadLSLeft => match input.gamepad {
            Some(p) => p.thumb_lx < -(left_thumb_deadzone() as i16),
            None => false,
        },
        InputKey::PadLSRight => match input.gamepad {
            Some(p) => p.thumb_lx > left_thumb_deadzone() as i16,
            None => false,
        },
        InputKey::PadRSUp => match input.gamepad {
            Some(p) => p.thumb_ry > right_thumb_deadzone() as i16,
            None => false,
        },
        InputKey::PadRSDown => match input.gamepad {
            Some(p) => p.thumb_ry < -(right_thumb_deadzone() as i16),
            None => false,
        },
        InputKey::PadRSLeft => match input.gamepad {
            Some(p) => p.thumb_rx < -(right_thumb_deadzone() as i16),
            None => false,
        },
        InputKey::PadRSRight => match input.gamepad {
            Some(p) => p.thumb_rx > right_thumb_deadzone() as i16,
            None => false,
        },
    }
}

/// Whether `key` was down in the previous frame, by the recorded states `prev`
/// (a key never recorded was up).
pub open spec fn was_down(prev: Map<InputKey, bool>, key: InputKey) -> bool {
    prev.contains_key(key) && prev[key]
}

/// Every key of `keys` is down.
pub open spec fn all_down(keys: Seq<InputKey>, input: RawInput) -> bool {
    forall|j: int| 0 <= j < keys.len() ==> raw_down(#[trigger] keys[j], input)
}

/// Some key of `keys` is down now and was up by `prev`.
pub open spec fn any_just_pressed(prev: Map<InputKey, bool>, keys: Seq<InputKey>, input: RawInput) -> bool {
    exists|j: int| 0 <= j < keys.len() && raw_down(#[trigger] keys[j], input) && !was_down(prev, keys[j])
}

/// The recorded states `prev` after each key of `keys` has been recorded with its
/// state in `input`.
pub open spec fn record_keys(prev: Map<InputKey, bool>, keys: Seq<InputKey>, input: RawInput) -> Map<InputKey, bool> {
    Map::new(
        |k: InputKey| prev.contains_key(k) || keys.contains(k),
        |k: InputKey| if keys.contains(k) { raw_down(k, input) } else { prev[k] },
    )
}

/// A combination is pressed when it has keys, all of them are down, and at least
/// one of them has just gone down.
pub open spec fn combo_pressed(prev: Map<InputKey, bool>, keys: Seq<InputKey>, input: RawInput) -> bool {
    keys.len() > 0 && all_down(keys, input) && any_just_pressed(prev, keys, input)
}

/// A combination is down when it has keys and all of them are down.
pub open spec fn combo_down(keys: Seq<InputKey>, input: RawInput) -> bool {
    keys.len() > 0 && all_down(keys, input)
}

proof fn lemma_record_step(prev: Map<InputKey, bool>, keys: Seq<InputKey>, i: int, input: RawInput)
    requires
        0 <= i < keys.len(),
    ensures
        record_keys(prev, keys.take(i + 1), input) == record_keys(prev, keys.take(i), input).insert(
            keys[i],
            raw_down(keys[i], input),
        ),
        all_down(keys.take(i + 1), input) == (all_down(keys.take(i), input) && raw_down(keys[i], input)),
        any_just_pressed(prev, keys.take(i + 1), input) == (any_just_pressed(prev, keys.take(i), input) || (
        raw_down(keys[i], input) && !was_down(record_keys(prev, keys.take(i), input), keys[i]))),
{
    let before = keys.take(i);
    let after = keys.take(i + 1);
    let key = keys[i];
    assert(after =~= before.push(key));
    assert forall|k: InputKey| after.contains(k) <==> (before.contains(k) || k == key) by {
        if after.contains(k) {
            let j = choose|j: int| 0 <= j < after.len() && after[j] == k;
            if j < i {
                assert(before[j] == k);
            }
        }
        if before.contains(k) {
            let j = choose|j: int| 0 <= j < before.len() && before[j] == k;
            assert(after[j] == k);
        }
        if k == key {
            assert(after[i] == k);
        }
    }
    assert(record_keys(prev, after, input) =~= record_keys(prev, before, input).insert(key, raw_down(key, input)));
    if all_down(after, input) {
        assert forall|j: int| 0 <= j < before.len() implies raw_down(#[trigger] before[j], input) by {
            assert(after[j] == before[j]);
        }
        assert(after[i] == key);
    }
    if all_down(before, input) && raw_down(key, input) {
        assert forall|j: int| 0 <= j < after.len() implies raw_down(#[trigger] after[j], input) by {
            if j < i {
                assert(after[j] == before[j]);
            }
        }
    }
    let mid = record_keys(prev, before, input);
    if any_just_pressed(prev, after, input) {
        let j = choose|j: int| 0 <= j < after.len() && raw_down(#[trigger] after[j], input) && !was_down(prev, after[j]);
        if j < i {
            assert(before[j] == after[j]);
        } else {
            assert(after[j] == key);
            if before.contains(key) {
                let j2 = choose|j2: int| 0 <= j2 < before.len() && before[j2] == key;
                assert(raw_down(before[j2], input) && !was_down(prev, before[j2]));
            } else {
                assert(mid.contains_key(key) == prev.contains_key(key));
            }
        }
    }
    if any_just_pressed(prev, before, input) {
        let j = choose|j: int| 0 <= j < before.len() && raw_down(#[trigger] before[j], input) && !was_down(prev, before[j]);
        assert(after[j] == before[j]);
    }
    if raw_down(key, input) && !was_down(mid, key) {
        if before.contains(key) {
            assert(mid.contains_key(key) && mid[key] == raw_down(key, input));
        } else {
            assert(!was_down(prev, key));
            assert(after[i] == key);
        }
    }
}

/// Tracks the state of keys from frame to frame.
pub struct InputManager {
    prev_states: HashMap<u64, bool>,
    user_index: u32,
}

/// What an input manager holds: the state recorded for each key at its last poll,
/// and the XInput user index of the pad it reads.
pub struct ManagerView {
    pub prev: Map<InputKey, bool>,
    pub pad_index: u32,
}

impl View for InputManager {
    type V = ManagerView;

    closed spec fn view(&self) -> ManagerView {
        ManagerView {
            prev: Map::new(
                |k: InputKey| self.prev_states@.contains_key(key_code(k)),
                |k: InputKey| self.prev_states@[key_code(k)],
            ),
            pad_index: self.user_index,
        }
    }
}

impl InputManager {
    /// A manager with no key recorded, reading pad 0.
    pub fn new() -> (m: InputManager)
        ensures
            m@.prev == Map::<InputKey, bool>::empty(),
            m@.pad_index == 0,
    {
        let m = InputManager { prev_states: HashMap::new(), user_index: 0 };
        assert(m@.prev =~= Map::<InputKey, bool>::empty());
        m
    }

    /// Sets the XInput user index of the pad to read.
    pub fn set_user_index(&mut self, user_index: u32)
        ensures
            final(self)@.prev == old(self)@.prev,
            final(self)@.pad_index == user_index,
    {
        self.user_index = user_index;
    }

    /// The XInput user index of the pad to read.
    pub fn user_index(&self) -> (i: u32)
        ensures
            i == self@.pad_index,
    {
        self.user_index
    }

    fn recorded_down(&self, key: InputKey) -> (down: bool)
        ensures
            down == was_down(self@.prev, key),
    {
        let code = key.code();
        match self.prev_states.get(&code) {
            Some(b) => *b,
            None => false,
        }
    }

    fn record(&mut self, key: InputKey, down: bool)
        ensures
            final(self)@.prev == old(self)@.prev.insert(key, down),
            final(self)@.pad_index == old(self)@.pad_index,
    {
        let code = key.code();
        self.prev_states.insert(code, down);
        proof {
            assert forall|k: InputKey| key_code(k) == key_code(key) implies k == key by {
                lemma_key_code_injective(k, key);
            }
        }
        assert(self@.prev =~= old(self)@.prev.insert(key, down));
    }

    /// Reads `key` in this frame's input, records it, and tells how it changed
    /// since its last poll.
    pub fn poll_key(&mut self, key: InputKey, input: &RawInput) -> (state: KeyState)
        ensures
            state == KeyState::from_transition(was_down(old(self)@.prev, key), raw_down(key, *input)),
            final(self)@.prev == old(self)@.prev.insert(key, raw_down(key, *input)),
            final(self)@.pad_index == old(self)@.pad_index,
    {
        let curr_down = is_input_raw_down(key, input);
        let prev_down = self.recorded_down(key);
        let state = if !prev_down && !curr_down {
            KeyState::Idle
        } else if !prev_down && curr_down {
            KeyState::Press
        } else if prev_down && curr_down {
            KeyState::Hold
        } else {
            KeyState::Release
        };
        self.record(key, curr_down);
        state
    }

    /// Whether the combination (e.g. `lthumbpress+xa`) was just triggered: all of
    /// its keys are down and at least one of them went down in this frame. Every
    /// key of the combination is recorded.
    pub fn is_combo_pressed(&mut self, combo_str: &str, input: &RawInput) -> (pressed: bool)
        ensures
            pressed == combo_pressed(old(self)@.prev, combo_keys(combo_str@), *input),
            final(self)@.prev == record_keys(old(self)@.prev, combo_keys(combo_str@), *input),
            final(self)@.pad_index == old(self)@.pad_index,
    {
        let keys = parse_key_combo(combo_str);
        let n = keys.len();
        if n == 0 {
            assert(record_keys(old(self)@.prev, keys@, *input) =~= old(self)@.prev);
            return false;
        }
        let mut all_curr_down = true;
        let mut any_just = false;
        let mut i: usize = 0;
        assert(keys@.take(0) =~= Seq::<InputKey>::empty());
        assert(record_keys(old(self)@.prev, keys@.take(0), *input) =~= old(self)@.prev);
        while i < n
            invariant
                n == keys@.len(),
                i <= n,
                self@.prev == record_keys(old(self)@.prev, keys@.take(i as int), *input),
                all_curr_down == all_down(keys@.take(i as int), *input),
                any_just == any_just_pressed(old(self)@.prev, keys@.take(i as int), *input),
                self@.pad_index == old(self)@.pad_index,
            decreases n - i,
        {
            let key = keys[i];
            let curr_down = is_input_raw_down(key, input);
            let prev_down = self.recorded_down(key);
            proof {
                lemma_record_step(old(self)@.prev, keys@, i as int, *input);
            }
            if !curr_down {
                all_curr_down = false;
            }
            if !prev_down && curr_down {
                any_just = true;
            }
            self.record(key, curr_down);
            i = i + 1;
        }
        assert(keys@.take(n as int) =~= keys@);
        all_curr_down && any_just
    }

    /// Whether all keys of the combination are down. Every key of the combination
    /// is recorded.
    pub fn is_combo_down(&mut self, combo_str: &str, input: &RawInput) -> (down: bool)
        ensures
            down == combo_down(combo_keys(combo_str@), *input),
            final(self)@.prev == record_keys(old(self)@.prev, combo_keys(combo_str@), *input),
            final(self)@.pad_index == old(self)@.pad_index,
    {
        let keys = parse_key_combo(combo_str);
        let n = keys.len();
        if n == 0 {
            assert(record_keys(old(self)@.prev, keys@, *input) =~= old(self)@.prev);
            return false;
        }
        let mut all_curr_down = true;
        let mut i: usize = 0;
        assert(keys@.take(0) =~= Seq::<InputKey>::empty());
        assert(record_keys(old(self)@.prev, keys@.take(0), *input) =~= old(self)@.prev);
        while i < n
            invariant
                n == keys@.len(),
                i <= n,
                self@.prev == record_keys(old(self)@.prev, keys@.take(i as int), *input),
                all_curr_down == all_down(keys@.take(i as int), *input),
                self@.pad_index == old(self)@.pad_index,
            decreases n - i,
        {
            let key = keys[i];
            let curr_down = is_input_raw_down(key, input);
            proof {
                lemma_record_step(old(self)@.prev, keys@, i as int, *input);
            }
            if !curr_down {
                all_curr_down = false;
            }
            self.record(key, curr_down);
            i = i + 1;
        }
        assert(keys@.take(n as int) =~= keys@);
        all_curr_down
    }
}

/// What a manager that may not exist yet holds: a new manager has no key
/// recorded and reads pad 0.
pub open spec fn slot_view(slot: Option<InputManager>) -> ManagerView {
    match slot {
        Some(m) => m@,
        None => ManagerView { prev: Map::<InputKey, bool>::empty(), pad_index: 0 },
    }
}

fn take_manager(slot: &mut Option<InputManager>) -> (m: InputManager)
    ensures
        m@ == slot_view(*old(slot)),
{
    match slot.take() {
        Some(m) => m,
        None => InputManager::new(),
    }
}

/// `InputManager::poll_key` on the manager in `slot`, which is created first when
/// there is none.
pub fn poll_key(slot: &mut Option<InputManager>, key: InputKey, input: &RawInput) -> (state: KeyState)
    ensures
        state == KeyState::from_transition(was_down(slot_view(*old(slot)).prev, key), raw_down(key, *input)),
        *final(slot) is Some,
        slot_view(*final(slot)).prev == slot_view(*old(slot)).prev.insert(key, raw_down(key, *input)),
        slot_view(*final(slot)).pad_index == slot_view(*old(slot)).pad_index,
{
    let mut m = take_manager(slot);
    let state = m.poll_key(key, input);
    *slot = Some(m);
    state
}

/// `InputManager::is_combo_pressed` on the manager in `slot`, which is created
/// first when there is none.
pub fn is_combo_pressed(slot: &mut Option<InputManager>, combo_str: &str, input: &RawInput) -> (pressed: bool)
    ensures
        pressed == combo_pressed(slot_view(*old(slot)).prev, combo_keys(combo_str@), *input),
        *final(slot) is Some,
        slot_view(*final(slot)).prev == record_keys(slot_view(*old(slot)).prev, combo_keys(combo_str@), *input),
        slot_view(*final(slot)).pad_index == slot_view(*old(slot)).pad_index,
{
    let mut m = take_manager(slot);
    let pressed = m.is_combo_pressed(combo_str, input);
    *slot = Some(m);
    pressed
}

/// `InputManager::is_combo_down` on the manager in `slot`, which is created first
/// when there is none.
pub fn is_combo_down(slot: &mut Option<InputManager>, combo_str: &str, input: &RawInput) -> (down: bool)
    ensures
        down == combo_down(combo_keys(combo_str@), *input),
        *final(slot) is Some,
        slot_view(*final(slot)).prev == record_keys(slot_view(*old(slot)).prev, combo_keys(combo_str@), *input),
        slot_view(*final(slot)).pad_index == slot_view(*old(slot)).pad_index,
{
    let mut m = take_manager(slot);
    let down = m.is_combo_down(combo_str, input);
    *slot = Some(m);
    down
}

} // verus!
