//! Properties of the raw input, of key combinations and of the per-frame scans,
//! stated over the pad axes, the button bits, the keyboard readings and the keys
//! of each combination.

use vstd::prelude::*;
use crate::bullet_time::{frame_outcome, scan_down, scan_pressed};
use crate::config::{texts, ActionMode, BulletTimeRules};
use crate::input::{
    combo_down, combo_pressed, keyboard_state, raw_down, record_keys, GamepadState, KeyReading,
    RawInput,
};
use crate::keys::{combo_keys, InputKey};

verus! {

/// Each stick direction reads down exactly when that stick is pushed that way past
/// its dead zone (7849 for the left stick, 8689 for the right one): opposite
/// directions are never down together, a direction that is down has its axis on
/// its side of the centre, an axis past the dead zone makes its direction down, and
/// an axis inside the dead zone leaves both of its directions up.
pub proof fn law_stick_directions(input: RawInput, p: GamepadState)
    requires
        input.gamepad == Some(p),
    ensures
        !(raw_down(InputKey::PadLSRight, input) && raw_down(InputKey::PadLSLeft, input)),
        !(raw_down(InputKey::PadLSUp, input) && raw_down(InputKey::PadLSDown, input)),
        !(raw_down(InputKey::PadRSRight, input) && raw_down(InputKey::PadRSLeft, input)),
        !(raw_down(InputKey::PadRSUp, input) && raw_down(InputKey::PadRSDown, input)),
        raw_down(InputKey::PadLSRight, input) ==> p.thumb_lx > 0,
        raw_down(InputKey::PadLSLeft, input) ==> p.thumb_lx < 0,
        raw_down(InputKey::PadLSUp, input) ==> p.thumb_ly > 0,
        raw_down(InputKey::PadLSDown, input) ==> p.thumb_ly < 0,
        raw_down(InputKey::PadRSRight, input) ==> p.thumb_rx > 0,
        raw_down(InputKey::PadRSLeft, input) ==> p.thumb_rx < 0,
        raw_down(InputKey::PadRSUp, input) ==> p.thumb_ry > 0,
        raw_down(InputKey::PadRSDown, input) ==> p.thumb_ry < 0,
        p.thumb_lx >= 7850 ==> raw_down(InputKey::PadLSRight, input),
        p.thumb_lx <= -7850 ==> raw_down(InputKey::PadLSLeft, input),
        p.thumb_ly >= 7850 ==> raw_down(InputKey::PadLSUp, input),
        p.thumb_ly <= -7850 ==> raw_down(InputKey::PadLSDown, input),
        p.thumb_rx >= 8690 ==> raw_down(InputKey::PadRSRight, input),
        p.thumb_rx <= -8690 ==> raw_down(InputKey::PadRSLeft, input),
        p.thumb_ry >= 8690 ==> raw_down(InputKey::PadRSUp, input),
        p.thumb_ry <= -8690 ==> raw_down(InputKey::PadRSDown, input),
        -7849 <= p.thumb_lx <= 7849 ==> !raw_down(InputKey::PadLSRight, input) && !raw_down(
            InputKey::PadLSLeft,
            input,
        ),
        -7849 <= p.thumb_ly <= 7849 ==> !raw_down(InputKey::PadLSUp, input) && !raw_down(
            InputKey::PadLSDown,
            input,
        ),
        -8689 <= p.thumb_rx <= 8689 ==> !raw_down(InputKey::PadRSRight, input) && !raw_down(
            InputKey::PadRSLeft,
            input,
        ),
        -8689 <= p.thumb_ry <= 8689 ==> !raw_down(InputKey::PadRSUp, input) && !raw_down(
            InputKey::PadRSDown,
            input,
        ),
{
}

/// A trigger reads down exactly when it is pulled past the threshold 30.
pub proof fn law_triggers(input: RawInput, p: GamepadState)
    requires
        input.gamepad == Some(p),
    ensures
        raw_down(InputKey::PadLT, input) == (p.left_trigger >= 31),
        raw_down(InputKey::PadRT, input) == (p.right_trigger >= 31),
{
}

/// Without a pad no pad input is down.
pub proof fn law_no_pad_no_pad_input(input: RawInput, mask: u16)
    requires
        input.gamepad is None,
    ensures
        !raw_down(InputKey::PadButton(mask), input),
        !raw_down(InputKey::PadLT, input),
        !raw_down(InputKey::PadRT, input),
        !raw_down(InputKey::PadLSUp, input),
        !raw_down(InputKey::PadLSDown, input),
        !raw_down(InputKey::PadLSLeft, input),
        !raw_down(InputKey::PadLSRight, input),
        !raw_down(InputKey::PadRSUp, input),
        !raw_down(InputKey::PadRSDown, input),
        !raw_down(InputKey::PadRSLeft, input),
        !raw_down(InputKey::PadRSRight, input),
{
}

/// A key for several buttons is down when any of them is: the key for the buttons
/// of `m1` and `m2` together is down exactly when the key for `m1` or the key for
/// `m2` is. A key for no button is never down, and the buttons that are down, taken
/// together, read down.
pub proof fn law_button_masks(input: RawInput, p: GamepadState, m1: u16, m2: u16)
    requires
        input.gamepad == Some(p),
    ensures
        raw_down(InputKey::PadButton(m1 | m2), input) == (raw_down(InputKey::PadButton(m1), input)
            || raw_down(InputKey::PadButton(m2), input)),
        !raw_down(InputKey::PadButton(0), input),
        p.buttons != 0 ==> raw_down(InputKey::PadButton(p.buttons), input),
        p.buttons == 0 ==> !raw_down(InputKey::PadButton(m1), input),
{
    let b = p.buttons;
    assert(((b & (m1 | m2)) != 0) == ((b & m1) != 0 || (b & m2) != 0)) by (bit_vector);
    assert(b & 0 == 0) by (bit_vector);
    assert(b != 0 ==> b & b != 0) by (bit_vector);
    assert(b == 0 ==> b & m1 == 0) by (bit_vector);
}

proof fn lemma_keyboard_first_reading(readings: Seq<KeyReading>, vk: i32, i: int)
    requires
        0 <= i < readings.len(),
        readings[i].vk == vk,
        forall|j: int| 0 <= j < i ==> readings[j].vk != vk,
    ensures
        keyboard_state(readings, vk) == readings[i].state,
    decreases i,
{
    if i > 0 {
        let rest = readings.drop_first();
        assert forall|j: int| 0 <= j < i - 1 implies rest[j].vk != vk by {
            assert(rest[j] == readings[j + 1]);
        }
        lemma_keyboard_first_reading(rest, vk, i - 1);
    }
}

proof fn lemma_keyboard_no_reading(readings: Seq<KeyReading>, vk: i32)
    requires
        forall|j: int| 0 <= j < readings.len() ==> readings[j].vk != vk,
    ensures
        keyboard_state(readings, vk) == 0,
    decreases readings.len(),
{
    if readings.len() > 0 {
        let rest = readings.drop_first();
        assert forall|j: int| 0 <= j < rest.len() implies rest[j].vk != vk by {
            assert(rest[j] == readings[j + 1]);
        }
        lemma_keyboard_no_reading(rest, vk);
    }
}

/// A keyboard key is down exactly when the first reading taken of it has its most
/// significant bit set (is negative).
pub proof fn law_keyboard_first_reading(input: RawInput, vk: i32, i: int)
    requires
        0 <= i < input.keyboard@.len(),
        input.keyboard@[i].vk == vk,
        forall|j: int| 0 <= j < i ==> input.keyboard@[j].vk != vk,
    ensures
        raw_down(InputKey::Keyboard(vk), input) == (input.keyboard@[i].state < 0),
{
    lemma_keyboard_first_reading(input.keyboard@, vk, i);
}

/// A keyboard key that was not read is up.
pub proof fn law_keyboard_unread_key_is_up(input: RawInput, vk: i32)
    requires
        forall|j: int| 0 <= j < input.keyboard@.len() ==> input.keyboard@[j].vk != vk,
    ensures
        !raw_down(InputKey::Keyboard(vk), input),
{
    lemma_keyboard_no_reading(input.keyboard@, vk);
}

/// A combination is down exactly when it has keys and every one of them is down;
/// a combination with a key that is up is not down, whatever that key's position.
pub proof fn law_combo_down_means_all_keys_down(keys: Seq<InputKey>, input: RawInput)
    ensures
        combo_down(keys, input) == (keys.len() > 0 && forall|j: int|
            0 <= j < keys.len() ==> raw_down(#[trigger] keys[j], input)),
{
}

/// A combination is pressed exactly when it has keys, every one of them is down,
/// and at least one of them, at any position, was not recorded down before.
pub proof fn law_combo_pressed_meaning(prev: Map<InputKey, bool>, keys: Seq<InputKey>, input: RawInput)
    ensures
        combo_pressed(prev, keys, input) == (keys.len() > 0 && (forall|j: int|
            0 <= j < keys.len() ==> raw_down(#[trigger] keys[j], input)) && (exists|j: int|
            0 <= j < keys.len() && raw_down(#[trigger] keys[j], input) && !(prev.contains_key(keys[j])
                && prev[keys[j]]))),
{
}

/// Recording a combination records each of its keys with its state now and leaves
/// every other key as it was.
pub proof fn law_record_keys(prev: Map<InputKey, bool>, keys: Seq<InputKey>, input: RawInput, k: InputKey)
    ensures
        keys.contains(k) ==> record_keys(prev, keys, input).contains_key(k) && record_keys(prev, keys, input)[k]
            == raw_down(k, input),
        !keys.contains(k) ==> record_keys(prev, keys, input).contains_key(k) == prev.contains_key(k),
        !keys.contains(k) && prev.contains_key(k) ==> record_keys(prev, keys, input)[k] == prev[k],
{
}

/// The keys of the `i`-th combination are all down.
pub open spec fn held_at(combos: Seq<Seq<char>>, i: int, input: RawInput) -> bool {
    let keys = combo_keys(combos[i]);
    keys.len() > 0 && forall|j: int| 0 <= j < keys.len() ==> raw_down(#[trigger] keys[j], input)
}

/// Scanning combinations for one that is down finds one exactly when some
/// combination, at any position, has keys and all of them are down.
pub proof fn law_scan_down_finds_any_held(prev: Map<InputKey, bool>, combos: Seq<Seq<char>>, input: RawInput)
    ensures
        scan_down(prev, combos, input).1 == exists|i: int| 0 <= i < combos.len() && #[trigger] held_at(combos, i, input),
    decreases combos.len(),
{
    if combos.len() > 0 {
        let rest = combos.drop_first();
        let next = record_keys(prev, combo_keys(combos[0]), input);
        law_scan_down_finds_any_held(next, rest, input);
        law_combo_down_means_all_keys_down(combo_keys(combos[0]), input);
        if combo_down(combo_keys(combos[0]), input) {
            assert(held_at(combos, 0, input));
        }
        if exists|i: int| 0 <= i < combos.len() && #[trigger] held_at(combos, i, input) {
            let i = choose|i: int| 0 <= i < combos.len() && #[trigger] held_at(combos, i, input);
            if i > 0 {
                assert(rest[i - 1] == combos[i]);
                assert(held_at(rest, i - 1, input));
            }
        }
        if exists|i: int| 0 <= i < rest.len() && #[trigger] held_at(rest, i, input) {
            let i = choose|i: int| 0 <= i < rest.len() && #[trigger] held_at(rest, i, input);
            assert(rest[i] == combos[i + 1]);
            assert(held_at(combos, i + 1, input));
        }
    }
}

/// Scanning combinations for one that is pressed only succeeds on a combination
/// whose keys are all down.
pub proof fn law_scan_pressed_needs_a_held_combo(prev: Map<InputKey, bool>, combos: Seq<Seq<char>>, input: RawInput)
    ensures
        scan_pressed(prev, combos, input).1 ==> exists|i: int| 0 <= i < combos.len() && #[trigger] held_at(combos, i, input),
    decreases combos.len(),
{
    if combos.len() > 0 {
        let rest = combos.drop_first();
        let keys = combo_keys(combos[0]);
        let next = record_keys(prev, keys, input);
        law_scan_pressed_needs_a_held_combo(next, rest, input);
        law_combo_pressed_meaning(prev, keys, input);
        if combo_pressed(prev, keys, input) {
            assert(held_at(combos, 0, input));
        } else if scan_pressed(prev, combos, input).1 {
            let i = choose|i: int| 0 <= i < rest.len() && #[trigger] held_at(rest, i, input);
            assert(rest[i] == combos[i + 1]);
            assert(held_at(combos, i + 1, input));
        }
    }
}

/// Whether `k` is a key of one of the first `i` combinations.
pub open spec fn key_in_first(combos: Seq<Seq<char>>, i: int, k: InputKey) -> bool {
    exists|j: int| 0 <= j < i && #[trigger] combo_keys(combos[j]).contains(k)
}

/// Scanning combinations for one that is pressed succeeds when some combination,
/// at any position, has all its keys down and one of them was not recorded down
/// and belongs to no earlier combination.
pub proof fn law_scan_pressed_finds_a_fresh_press(
    prev: Map<InputKey, bool>,
    combos: Seq<Seq<char>>,
    input: RawInput,
    i: int,
    k: InputKey,
)
    requires
        0 <= i < combos.len(),
        held_at(combos, i, input),
        combo_keys(combos[i]).contains(k),
        !(prev.contains_key(k) && prev[k]),
        !key_in_first(combos, i, k),
    ensures
        scan_pressed(prev, combos, input).1,
    decreases i,
{
    let keys = combo_keys(combos[0]);
    law_combo_pressed_meaning(prev, keys, input);
    if i == 0 {
        let j = choose|j: int| 0 <= j < keys.len() && keys[j] == k;
        assert(raw_down(keys[j], input));
    } else if !combo_pressed(prev, keys, input) {
        let rest = combos.drop_first();
        let next = record_keys(prev, keys, input);
        assert(combo_keys(combos[0]).contains(k) == false) by {
            if combo_keys(combos[0]).contains(k) {
                assert(key_in_first(combos, i, k));
            }
        }
        law_record_keys(prev, keys, input, k);
        assert(rest[i - 1] == combos[i]);
        assert(held_at(rest, i - 1, input));
        assert(!key_in_first(rest, i - 1, k)) by {
            if key_in_first(rest, i - 1, k) {
                let j = choose|j: int| 0 <= j < i - 1 && #[trigger] combo_keys(rest[j]).contains(k);
                assert(rest[j] == combos[j + 1]);
                assert(combo_keys(combos[j + 1]).contains(k));
            }
        }
        law_scan_pressed_finds_a_fresh_press(next, rest, input, i - 1, k);
    }
}

/// The scans leave every key that belongs to none of the combinations as it was.
pub proof fn law_scans_keep_other_keys(prev: Map<InputKey, bool>, combos: Seq<Seq<char>>, input: RawInput, k: InputKey)
    requires
        !key_in_first(combos, combos.len() as int, k),
    ensures
        scan_pressed(prev, combos, input).0.contains_key(k) == prev.contains_key(k),
        prev.contains_key(k) ==> scan_pressed(prev, combos, input).0[k] == prev[k],
        scan_down(prev, combos, input).0.contains_key(k) == prev.contains_key(k),
        prev.contains_key(k) ==> scan_down(prev, combos, input).0[k] == prev[k],
    decreases combos.len(),
{
    if combos.len() > 0 {
        let keys = combo_keys(combos[0]);
        let rest = combos.drop_first();
        assert(!keys.contains(k)) by {
            if keys.contains(k) {
                assert(key_in_first(combos, combos.len() as int, k));
            }
        }
        law_record_keys(prev, keys, input, k);
        assert(!key_in_first(rest, rest.len() as int, k)) by {
            if key_in_first(rest, rest.len() as int, k) {
                let j = choose|j: int| 0 <= j < rest.len() && #[trigger] combo_keys(rest[j]).contains(k);
                assert(rest[j] == combos[j + 1]);
                assert(combo_keys(combos[j + 1]).contains(k));
            }
        }
        law_scans_keep_other_keys(record_keys(prev, keys, input), rest, input, k);
    }
}

/// In hold mode bullet time is on after a frame exactly when some activation
/// combination, at any position of the list, has keys and all of them are down.
pub proof fn law_hold_mode_on_exactly_when_a_binding_is_held(
    was_active: bool,
    prev: Map<InputKey, bool>,
    rules: BulletTimeRules,
    input: RawInput,
    has_main_player: bool,
)
    requires
        rules.action_type == ActionMode::Hold,
    ensures
        frame_outcome(was_active, prev, rules, input, has_main_player).0 == exists|i: int|
            0 <= i < rules.bullet_time_keys@.len() && #[trigger] held_at(texts(rules.bullet_time_keys@), i, input),
{
    let keys = texts(rules.bullet_time_keys@);
    let q1 = scan_pressed(prev, keys, input).0;
    let q2 = scan_pressed(q1, texts(rules.normal_keys@), input).0;
    law_scan_down_finds_any_held(q2, keys, input);
}

} // verus!
