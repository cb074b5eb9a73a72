//! Properties that hold across calls of the library, proved over the
//! specifications that its functions' contracts use.

use vstd::prelude::*;
use crate::bullet_time::{keeps_normal_speed, disable_outcome, enable_outcome, frame_outcome, scan_down, scan_pressed, SpEffectOp};
use crate::config::texts;
use crate::config::{ActionMode, BulletTimeRules};
use crate::input::{
    combo_down, combo_pressed, record_keys, raw_down, was_down, KeyState, RawInput,
};
use crate::keys::{combo_keys, key_for_name, keys_of, parsed_key, split_on, InputKey};
use crate::text::{
    ascii_lower, ascii_lowercase_text, is_ascii_text, lowercase, trim_end, trim_start, trimmed,
    white_space,
};

verus! {

/// The four key states describe the transition they are named after: the state is
/// down exactly when the key is down now, pressed exactly when it went from up to
/// down, released exactly when it went from down to up, idle exactly when it
/// stayed up.
pub proof fn law_key_state_describes_transition(prev_down: bool, curr_down: bool)
    ensures
        ({
            let s = KeyState::from_transition(prev_down, curr_down);
            &&& (s == KeyState::Press || s == KeyState::Hold) == curr_down
            &&& (s == KeyState::Press) == (!prev_down && curr_down)
            &&& (s == KeyState::Hold) == (prev_down && curr_down)
            &&& (s == KeyState::Release) == (prev_down && !curr_down)
            &&& (s == KeyState::Idle) == (!prev_down && !curr_down)
        }),
{
}

/// Polling a key a second time with the same input finds it held when it is down
/// and idle when it is up: a press or a release shows once.
pub proof fn law_second_poll_is_steady(prev: Map<InputKey, bool>, key: InputKey, input: RawInput)
    ensures
        ({
            let after = prev.insert(key, raw_down(key, input));
            let s = KeyState::from_transition(was_down(after, key), raw_down(key, input));
            s == (if raw_down(key, input) { KeyState::Hold } else { KeyState::Idle })
        }),
{
}

/// A combination that is pressed is also down.
pub proof fn law_pressed_combo_is_down(prev: Map<InputKey, bool>, keys: Seq<InputKey>, input: RawInput)
    ensures
        combo_pressed(prev, keys, input) ==> combo_down(keys, input),
{
}

/// A combination fires once: polled again with the same input, after its keys
/// were recorded, it is not pressed.
pub proof fn law_combo_press_fires_once(prev: Map<InputKey, bool>, keys: Seq<InputKey>, input: RawInput)
    ensures
        !combo_pressed(record_keys(prev, keys, input), keys, input),
{
    let after = record_keys(prev, keys, input);
    if combo_pressed(after, keys, input) {
        let j = choose|j: int| 0 <= j < keys.len() && raw_down(#[trigger] keys[j], input) && !was_down(after, keys[j]);
        assert(keys.contains(keys[j]));
    }
}

/// A combination of one key acts as polling that key: it is pressed exactly when
/// the key's state is `Press`, down exactly when the key is down, and records the
/// key in the same way.
pub proof fn law_single_key_combo_is_poll(prev: Map<InputKey, bool>, key: InputKey, input: RawInput)
    ensures
        combo_pressed(prev, seq![key], input) == (KeyState::from_transition(was_down(prev, key), raw_down(key, input))
            == KeyState::Press),
        combo_down(seq![key], input) == raw_down(key, input),
        record_keys(prev, seq![key], input) == prev.insert(key, raw_down(key, input)),
{
    let keys = seq![key];
    assert(keys[0] == key);
    assert forall|k: InputKey| keys.contains(k) <==> k == key by {
        if keys.contains(k) {
            let j = choose|j: int| 0 <= j < keys.len() && keys[j] == k;
        }
    }
    assert(record_keys(prev, keys, input) =~= prev.insert(key, raw_down(key, input)));
}

proof fn lemma_split_nonempty(s: Seq<char>, sep: char)
    ensures
        split_on(s, sep).len() >= 1,
    decreases s.len(),
{
    if s.len() > 0 {
        lemma_split_nonempty(s.drop_last(), sep);
    }
}

proof fn lemma_split_concat(a: Seq<char>, b: Seq<char>, sep: char)
    ensures
        split_on(a + seq![sep] + b, sep) == split_on(a, sep) + split_on(b, sep),
    decreases b.len(),
{
    let s = a + seq![sep] + b;
    if b.len() == 0 {
        assert(s.drop_last() =~= a);
        assert(split_on(b, sep) =~= seq![Seq::<char>::empty()]);
        assert(split_on(s, sep) =~= split_on(a, sep) + split_on(b, sep));
    } else {
        assert(s.drop_last() =~= a + seq![sep] + b.drop_last());
        lemma_split_concat(a, b.drop_last(), sep);
        lemma_split_nonempty(b.drop_last(), sep);
        lemma_split_nonempty(a, sep);
        assert(s.last() == b.last());
        let x = split_on(a, sep);
        let y = split_on(b.drop_last(), sep);
        if b.last() == sep {
            assert(split_on(s, sep) =~= x + y.push(Seq::<char>::empty()));
        } else {
            assert((x + y).last() == y.last());
            assert(split_on(s, sep) =~= x + y.update(y.len() - 1, y.last().push(b.last())));
        }
    }
}

proof fn lemma_keys_of_concat(x: Seq<Seq<char>>, y: Seq<Seq<char>>)
    ensures
        keys_of(x + y) == keys_of(x) + keys_of(y),
    decreases y.len(),
{
    if y.len() == 0 {
        assert(x + y =~= x);
        assert(keys_of(x) + keys_of(y) =~= keys_of(x));
    } else {
        assert((x + y).drop_last() =~= x + y.drop_last());
        lemma_keys_of_concat(x, y.drop_last());
        assert((x + y).last() == y.last());
        let tail = match parsed_key(y.last()) {
            Some(k) => seq![k],
            None => Seq::<InputKey>::empty(),
        };
        assert(keys_of(x + y) =~= keys_of(x) + keys_of(y.drop_last()) + tail);
        assert(keys_of(x) + keys_of(y) =~= keys_of(x) + (keys_of(y.drop_last()) + tail));
    }
}

/// The keys of two combinations joined by `+` are the keys of the first followed
/// by the keys of the second.
pub proof fn law_combo_concat(a: Seq<char>, b: Seq<char>)
    ensures
        combo_keys(a + seq!['+'] + b) == combo_keys(a) + combo_keys(b),
{
    lemma_split_concat(a, b, '+');
    lemma_keys_of_concat(split_on(a, '+'), split_on(b, '+'));
}

proof fn lemma_split_without_sep(s: Seq<char>, sep: char)
    requires
        !s.contains(sep),
    ensures
        split_on(s, sep) == seq![s],
    decreases s.len(),
{
    if s.len() == 0 {
        assert(s =~= Seq::<char>::empty());
        assert(split_on(s, sep) =~= seq![s]);
    } else {
        assert(!s.drop_last().contains(sep)) by {
            if s.drop_last().contains(sep) {
                let j = choose|j: int| 0 <= j < s.drop_last().len() && s.drop_last()[j] == sep;
                assert(s[j] == sep);
            }
        }
        lemma_split_without_sep(s.drop_last(), sep);
        assert(s[s.len() - 1] != sep);
        assert(s.drop_last().push(s.last()) =~= s);
        assert(split_on(s, sep) =~= seq![s]);
    }
}

/// Text without a `+` is a combination of the one key it names, or of none.
pub proof fn law_combo_of_one_name(s: Seq<char>)
    requires
        !s.contains('+'),
    ensures
        combo_keys(s) == (match parsed_key(s) {
            Some(k) => seq![k],
            None => Seq::<InputKey>::empty(),
        }),
{
    lemma_split_without_sep(s, '+');
    let p = seq![s];
    assert(p.drop_last() =~= Seq::<Seq<char>>::empty());
    assert(p.last() == s);
    let tail = match parsed_key(s) {
        Some(k) => seq![k],
        None => Seq::<InputKey>::empty(),
    };
    assert(keys_of(Seq::<Seq<char>>::empty()) == Seq::<InputKey>::empty());
    assert(keys_of(p) == keys_of(p.drop_last()) + tail);
    assert(keys_of(p) =~= (match parsed_key(s) {
        Some(k) => seq![k],
        None => Seq::<InputKey>::empty(),
    }));
}

proof fn lemma_trim_start_shape(s: Seq<char>)
    ensures
        exists|k: int|
            0 <= k <= s.len() && trim_start(s) == s.skip(k) && forall|m: int| 0 <= m < k ==> white_space(
                #[trigger] s[m],
            ),
        trim_start(s).len() == 0 || !white_space(trim_start(s)[0]),
    decreases s.len(),
{
    if s.len() > 0 && white_space(s[0]) {
        let rest = s.subrange(1, s.len() as int);
        lemma_trim_start_shape(rest);
        let k = choose|k: int|
            0 <= k <= rest.len() && trim_start(rest) == rest.skip(k) && forall|m: int| 0 <= m < k ==> white_space(
                #[trigger] rest[m],
            );
        assert(rest.skip(k) =~= s.skip(k + 1));
        assert forall|m: int| 0 <= m < k + 1 implies white_space(#[trigger] s[m]) by {
            if m > 0 {
                assert(s[m] == rest[m - 1]);
            }
        }
    } else {
        assert(s.skip(0) =~= s);
    }
}

proof fn lemma_trim_end_shape(s: Seq<char>)
    ensures
        exists|k: int|
            0 <= k <= s.len() && trim_end(s) == s.take(k) && forall|m: int| k <= m < s.len() ==> white_space(
                #[trigger] s[m],
            ),
        trim_end(s).len() == 0 || !white_space(trim_end(s).last()),
    decreases s.len(),
{
    if s.len() > 0 && white_space(s.last()) {
        let d = s.drop_last();
        lemma_trim_end_shape(d);
        let k = choose|k: int|
            0 <= k <= d.len() && trim_end(d) == d.take(k) && forall|m: int| k <= m < d.len() ==> white_space(
                #[trigger] d[m],
            );
        assert(d.take(k) =~= s.take(k));
        assert forall|m: int| k <= m < s.len() implies white_space(#[trigger] s[m]) by {
            if m < d.len() {
                assert(s[m] == d[m]);
            }
        }
    } else {
        assert(s.take(s.len() as int) =~= s);
    }
}

/// Trimming keeps a contiguous part of the text: everything before it and after it
/// is white space, and the part kept neither starts nor ends with white space.
pub proof fn law_trim_keeps_the_inner_part(s: Seq<char>)
    ensures
        exists|i: int, j: int|
            #![trigger s.subrange(i, j)]
            0 <= i <= j <= s.len() && trimmed(s) == s.subrange(i, j) && (forall|m: int|
                0 <= m < i ==> white_space(#[trigger] s[m])) && (forall|m: int|
                j <= m < s.len() ==> white_space(#[trigger] s[m])) && (i < j ==> !white_space(s[i])
                && !white_space(s[j - 1])),
{
    lemma_trim_start_shape(s);
    let i = choose|k: int|
        0 <= k <= s.len() && trim_start(s) == s.skip(k) && forall|m: int| 0 <= m < k ==> white_space(
            #[trigger] s[m],
        );
    let u = s.skip(i);
    lemma_trim_end_shape(u);
    let k = choose|k: int|
        0 <= k <= u.len() && trim_end(u) == u.take(k) && forall|m: int| k <= m < u.len() ==> white_space(
            #[trigger] u[m],
        );
    let j = i + k;
    assert(u.take(k) =~= s.subrange(i, j));
    assert forall|m: int| j <= m < s.len() implies white_space(#[trigger] s[m]) by {
        assert(s[m] == u[m - i]);
    }
    if i < j {
        assert(s[i] == u[0]);
        assert(trimmed(s)[0] == s[i]);
        assert(trimmed(s).last() == s[j - 1]);
    }
}

/// Trimming twice leaves what trimming once left.
pub proof fn law_trim_idempotent(s: Seq<char>)
    ensures
        trimmed(trimmed(s)) == trimmed(s),
{
    let u = trim_start(s);
    let t = trim_end(u);
    lemma_trim_start_shape(s);
    lemma_trim_end_shape(u);
    let k = choose|k: int| 0 <= k <= u.len() && t == u.take(k);
    if t.len() > 0 {
        assert(t[0] == u[0]);
    }
    assert(trim_start(t) == t);
}

/// White space around a key name does not change the key it names.
pub proof fn law_parse_ignores_surrounding_space(s: Seq<char>)
    ensures
        parsed_key(trimmed(s)) == parsed_key(s),
{
    law_trim_idempotent(s);
}

/// The ids of a SpEffect change.
pub open spec fn effect_id(op: SpEffectOp) -> i32 {
    match op {
        SpEffectOp::Apply { id, .. } => id,
        SpEffectOp::Remove { id } => id,
    }
}

/// Turning bullet time off undoes turning it on: with a player, the effects that
/// turning on applies are the effects that turning off removes, in the same order,
/// and the active flag is back to off.
pub proof fn law_disable_undoes_enable(rules: BulletTimeRules)
    ensures
        ({
            let (on, applied, _s1) = enable_outcome(false, true, rules);
            let (off, removed, _s2) = disable_outcome(on, true, rules);
            &&& on && !off
            &&& applied.len() == removed.len()
            &&& forall|i: int|
                0 <= i < applied.len() ==> (applied[i] is Apply && removed[i] is Remove && effect_id(applied[i])
                    == effect_id(removed[i]))
        }),
{
    let (on, applied, _s1) = enable_outcome(false, true, rules);
    let (off, removed, _s2) = disable_outcome(on, true, rules);
    assert forall|i: int| 0 <= i < applied.len() implies (applied[i] is Apply && removed[i] is Remove
        && effect_id(applied[i]) == effect_id(removed[i])) by {
        if i > 0 {
            assert(applied[i] == SpEffectOp::Apply { id: rules.stealth_speffect_ids@[i - 1], dont_sync: false });
            assert(removed[i] == SpEffectOp::Remove { id: rules.stealth_speffect_ids@[i - 1] });
        }
    }
}

proof fn lemma_scan_down_ignores_states(p1: Map<InputKey, bool>, p2: Map<InputKey, bool>, combos: Seq<Seq<char>>, input: RawInput)
    ensures
        scan_down(p1, combos, input).1 == scan_down(p2, combos, input).1,
    decreases combos.len(),
{
    if combos.len() > 0 {
        let keys = combo_keys(combos[0]);
        lemma_scan_down_ignores_states(
            record_keys(p1, keys, input),
            record_keys(p2, keys, input),
            combos.drop_first(),
            input,
        );
    }
}

/// In hold mode a second frame with the same input changes no effect and leaves
/// the active flag as the first frame left it: holding or releasing steadily does
/// nothing more.
pub proof fn law_hold_mode_is_steady(
    was_active: bool,
    prev: Map<InputKey, bool>,
    rules: BulletTimeRules,
    input: RawInput,
    has_main_player: bool,
)
    requires
        rules.action_type == ActionMode::Hold,
    ensures
        ({
            let (a1, m1, _e1, _s1) = frame_outcome(was_active, prev, rules, input, has_main_player);
            let (a2, _m2, e2, _s2) = frame_outcome(a1, m1, rules, input, has_main_player);
            a2 == a1 && e2.len() == 0
        }),
{
    let (a1, m1, _e1, _s1) = frame_outcome(was_active, prev, rules, input, has_main_player);
    let keys = texts(rules.bullet_time_keys@);
    let normal = texts(rules.normal_keys@);
    let q1 = scan_pressed(prev, keys, input).0;
    let q2 = scan_pressed(q1, normal, input).0;
    let r1 = scan_pressed(m1, keys, input).0;
    let r2 = scan_pressed(r1, normal, input).0;
    lemma_scan_down_ignores_states(q2, r2, keys, input);
}

/// In toggle mode a press of an activation combination flips bullet time: on
/// when it was off, off when it was on.
pub proof fn law_toggle_press_flips(
    was_active: bool,
    prev: Map<InputKey, bool>,
    rules: BulletTimeRules,
    input: RawInput,
    has_main_player: bool,
)
    requires
        rules.action_type == ActionMode::Toggle,
        scan_pressed(prev, texts(rules.bullet_time_keys@), input).1,
    ensures
        frame_outcome(was_active, prev, rules, input, has_main_player).0 == !was_active,
{
}

/// In toggle mode, a frame in which no combination is pressed keeps bullet time
/// as it was.
pub proof fn law_toggle_without_press_keeps_state(
    was_active: bool,
    prev: Map<InputKey, bool>,
    rules: BulletTimeRules,
    input: RawInput,
    has_main_player: bool,
)
    requires
        rules.action_type == ActionMode::Toggle,
        !scan_pressed(prev, texts(rules.bullet_time_keys@), input).1,
        !scan_pressed(
            scan_pressed(prev, texts(rules.bullet_time_keys@), input).0,
            texts(rules.normal_keys@),
            input,
        ).1,
    ensures
        frame_outcome(was_active, prev, rules, input, has_main_player).0 == was_active,
        frame_outcome(was_active, prev, rules, input, has_main_player).2.len() == 0,
        frame_outcome(was_active, prev, rules, input, has_main_player).3 == (if was_active {
            Some(crate::bullet_time::SpeedMode::Bullet)
        } else {
            None
        }),
{
}

/// In toggle mode, a deactivation press without an activation press turns bullet
/// time off.
pub proof fn law_toggle_deactivation_turns_off(
    was_active: bool,
    prev: Map<InputKey, bool>,
    rules: BulletTimeRules,
    input: RawInput,
    has_main_player: bool,
)
    requires
        rules.action_type == ActionMode::Toggle,
        !scan_pressed(prev, texts(rules.bullet_time_keys@), input).1,
        scan_pressed(
            scan_pressed(prev, texts(rules.bullet_time_keys@), input).0,
            texts(rules.normal_keys@),
            input,
        ).1,
    ensures
        !frame_outcome(was_active, prev, rules, input, has_main_player).0,
{
}

/// In hold mode bullet time is on after a frame exactly when an activation
/// combination is held.
pub proof fn law_hold_mode_follows_keys(
    was_active: bool,
    prev: Map<InputKey, bool>,
    rules: BulletTimeRules,
    input: RawInput,
    has_main_player: bool,
)
    requires
        rules.action_type == ActionMode::Hold,
    ensures
        frame_outcome(was_active, prev, rules, input, has_main_player).0 == scan_down(
            Map::<InputKey, bool>::empty(),
            texts(rules.bullet_time_keys@),
            input,
        ).1,
{
    let q1 = scan_pressed(prev, texts(rules.bullet_time_keys@), input).0;
    let q2 = scan_pressed(q1, texts(rules.normal_keys@), input).0;
    lemma_scan_down_ignores_states(q2, Map::<InputKey, bool>::empty(), texts(rules.bullet_time_keys@), input);
}

proof fn lemma_ascii_lower_char(c: char)
    requires
        (c as int) < 128,
    ensures
        (ascii_lower(c) as int) < 128,
        white_space(ascii_lower(c)) == white_space(c),
        ascii_lower(ascii_lower(c)) == ascii_lower(c),
{
}

proof fn lemma_trim_start_lower(s: Seq<char>)
    requires
        is_ascii_text(s),
    ensures
        is_ascii_text(trim_start(s)),
        trim_start(ascii_lowercase_text(s)) == ascii_lowercase_text(trim_start(s)),
    decreases s.len(),
{
    let l = ascii_lowercase_text(s);
    if s.len() > 0 {
        assert((s[0] as int) < 128);
        lemma_ascii_lower_char(s[0]);
        assert(l[0] == ascii_lower(s[0]));
    }
    if s.len() > 0 && white_space(s[0]) {
        let rest = s.subrange(1, s.len() as int);
        assert(is_ascii_text(rest)) by {
            assert forall|i: int| 0 <= i < rest.len() implies (#[trigger] rest[i] as int) < 128 by {
                assert(rest[i] == s[i + 1]);
            }
        }
        lemma_trim_start_lower(rest);
        assert(l.subrange(1, l.len() as int) =~= ascii_lowercase_text(rest));
    } else {
        assert(trim_start(l) == l);
    }
}

proof fn lemma_trim_end_lower(s: Seq<char>)
    requires
        is_ascii_text(s),
    ensures
        is_ascii_text(trim_end(s)),
        trim_end(ascii_lowercase_text(s)) == ascii_lowercase_text(trim_end(s)),
    decreases s.len(),
{
    let l = ascii_lowercase_text(s);
    if s.len() > 0 {
        assert((s.last() as int) < 128);
        lemma_ascii_lower_char(s.last());
        assert(l.last() == ascii_lower(s.last()));
    }
    if s.len() > 0 && white_space(s.last()) {
        let rest = s.drop_last();
        assert(is_ascii_text(rest)) by {
            assert forall|i: int| 0 <= i < rest.len() implies (#[trigger] rest[i] as int) < 128 by {
                assert(rest[i] == s[i]);
            }
        }
        lemma_trim_end_lower(rest);
        assert(l.drop_last() =~= ascii_lowercase_text(rest));
    } else {
        assert(trim_end(l) == l);
    }
}

proof fn lemma_trimmed_lower(s: Seq<char>)
    requires
        is_ascii_text(s),
    ensures
        is_ascii_text(trimmed(s)),
        trimmed(ascii_lowercase_text(s)) == ascii_lowercase_text(trimmed(s)),
        lowercase(trimmed(s)) == ascii_lowercase_text(trimmed(s)),
{
    lemma_trim_start_lower(s);
    lemma_trim_end_lower(trim_start(s));
}

proof fn lemma_lower_twice(s: Seq<char>)
    requires
        is_ascii_text(s),
    ensures
        is_ascii_text(ascii_lowercase_text(s)),
        ascii_lowercase_text(ascii_lowercase_text(s)) == ascii_lowercase_text(s),
{
    let l = ascii_lowercase_text(s);
    assert forall|i: int| 0 <= i < l.len() implies (#[trigger] l[i] as int) < 128 by {
        assert((s[i] as int) < 128);
        lemma_ascii_lower_char(s[i]);
    }
    assert forall|i: int| 0 <= i < l.len() implies #[trigger] ascii_lowercase_text(l)[i] == l[i] by {
        assert((s[i] as int) < 128);
        lemma_ascii_lower_char(s[i]);
    }
    assert(ascii_lowercase_text(l) =~= l);
}

/// Letter case does not change the key an ASCII name stands for: lowercasing the
/// name's letters leaves its key as it was.
pub proof fn law_parse_ignores_case(s: Seq<char>)
    requires
        is_ascii_text(s),
    ensures
        parsed_key(ascii_lowercase_text(s)) == parsed_key(s),
{
    let l = ascii_lowercase_text(s);
    lemma_lower_twice(s);
    lemma_trimmed_lower(s);
    lemma_trimmed_lower(l);
    lemma_trimmed_lower(trimmed(s));
    lemma_lower_twice(trimmed(s));
}

/// Two ASCII names that differ only in letter case stand for the same key.
pub proof fn law_names_equal_up_to_case_parse_alike(s: Seq<char>, t: Seq<char>)
    requires
        is_ascii_text(s),
        is_ascii_text(t),
        ascii_lowercase_text(s) == ascii_lowercase_text(t),
    ensures
        parsed_key(s) == parsed_key(t),
{
    law_parse_ignores_case(s);
    law_parse_ignores_case(t);
}

/// Parsing an ASCII name gives the key of the name trimmed and lowercased first,
/// as `parse_input_key(s) == parse_input_key(&s.trim().to_lowercase())`.
pub proof fn law_parse_of_normalized_name(s: Seq<char>)
    requires
        is_ascii_text(s),
    ensures
        parsed_key(lowercase(trimmed(s))) == parsed_key(s),
{
    let t = trimmed(s);
    lemma_trimmed_lower(s);
    lemma_trimmed_lower(t);
    law_trim_idempotent(s);
    lemma_lower_twice(t);
    lemma_trimmed_lower(ascii_lowercase_text(t));
}

/// During bullet time the local player always keeps normal speed; without
/// `include_torrent` nobody else does; with it, Torrent does, whether told by its
/// NPC id, its character id or by being the player's mount; and any other
/// character is slowed.
pub proof fn law_who_keeps_normal_speed(
    is_local_player: bool,
    include_torrent: bool,
    npc_id: i32,
    character_id: u32,
    is_players_mount: bool,
)
    ensures
        is_local_player ==> keeps_normal_speed(true, include_torrent, npc_id, character_id, is_players_mount),
        !include_torrent ==> keeps_normal_speed(is_local_player, false, npc_id, character_id, is_players_mount)
            == is_local_player,
        keeps_normal_speed(false, true, 8000, character_id, is_players_mount),
        keeps_normal_speed(false, true, npc_id, 8000, is_players_mount),
        keeps_normal_speed(false, true, npc_id, character_id, true),
        npc_id != 8000 && character_id != 8000 ==> !keeps_normal_speed(false, include_torrent, npc_id, character_id, false),
{
}

/// Turning bullet time on with a player applies the bullet-time effect (synced)
/// first, then, when stealth is enabled, one effect per stealth id in the given
/// order, and nothing else; it sets bullet-time speeds.
pub proof fn law_enable_effects(rules: BulletTimeRules)
    ensures
        ({
            let (on, e, speeds) = enable_outcome(false, true, rules);
            let ids = rules.stealth_speffect_ids@;
            &&& on
            &&& speeds == Some(crate::bullet_time::SpeedMode::Bullet)
            &&& e.len() == 1 + (if rules.enable_stealth { ids.len() } else { 0 })
            &&& e[0] == SpEffectOp::Apply { id: 4330, dont_sync: true }
            &&& rules.enable_stealth ==> forall|i: int| 0 <= i < ids.len() ==> e[i + 1] == SpEffectOp::Apply {
                id: ids[i],
                dont_sync: false,
            }
        }),
{
}

/// The state of a polled key: pressed when it is down now and was not recorded
/// down, held when down now and recorded down, released when up now and recorded
/// down, idle when up now and not recorded down.
pub proof fn law_poll_state_meaning(prev: Map<InputKey, bool>, key: InputKey, input: RawInput)
    ensures
        ({
            let before = prev.contains_key(key) && prev[key];
            let now = raw_down(key, input);
            let s = KeyState::from_transition(was_down(prev, key), now);
            &&& (s == KeyState::Press) == (now && !before)
            &&& (s == KeyState::Hold) == (now && before)
            &&& (s == KeyState::Release) == (!now && before)
            &&& (s == KeyState::Idle) == (!now && !before)
        }),
{
}

/// Asking for the state bullet time is already in changes no effect and keeps its
/// speeds up: turning on while on keeps bullet-time speeds, turning off while off
/// keeps normal speeds.
pub proof fn law_no_change_when_already_in_state(has_main_player: bool, rules: BulletTimeRules)
    ensures
        enable_outcome(true, has_main_player, rules) == (true, Seq::<SpEffectOp>::empty(), Some(
            crate::bullet_time::SpeedMode::Bullet,
        )),
        disable_outcome(false, has_main_player, rules) == (false, Seq::<SpEffectOp>::empty(), Some(
            crate::bullet_time::SpeedMode::Normal,
        )),
{
}

/// Without a player, turning bullet time on or off only flips the flag: no effect
/// changes and no speeds are set.
pub proof fn law_no_player_only_flips_the_flag(rules: BulletTimeRules)
    ensures
        enable_outcome(false, false, rules) == (true, Seq::<SpEffectOp>::empty(), Option::<crate::bullet_time::SpeedMode>::None),
        disable_outcome(true, false, rules) == (false, Seq::<SpEffectOp>::empty(), Option::<crate::bullet_time::SpeedMode>::None),
{
}

/// A single letter stands for the keyboard key whose virtual key code is the
/// letter's uppercase ASCII code, and a single digit for the key whose code is the
/// digit's ASCII code; distinct letters or digits stand for distinct keys.
pub proof fn law_letters_and_digits(c: char, d: char)
    ensures
        'a' <= c <= 'z' ==> key_for_name(seq![c]) == Some(InputKey::Keyboard((c as int - 32) as i32)),
        '0' <= c <= '9' ==> key_for_name(seq![c]) == Some(InputKey::Keyboard(c as int as i32)),
        ('a' <= c <= 'z' || '0' <= c <= '9') && ('a' <= d <= 'z' || '0' <= d <= '9') && c != d ==> key_for_name(
            seq![c],
        ) != key_for_name(seq![d]),
{
}

} // verus!
