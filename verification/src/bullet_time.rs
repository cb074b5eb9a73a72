//! The per-frame decisions of the mod: when bullet time turns on or off, which
//! SpEffects the player gets or loses, and which characters keep normal speed.

use vstd::prelude::*;
use crate::config::{texts, ActionMode, BulletTimeRules};
use crate::input::{
    combo_down, combo_pressed, is_combo_down, is_combo_pressed, record_keys, slot_view, RawInput,
    InputManager,
};
use crate::keys::{combo_keys, InputKey};

verus! {

/// The SpEffect applied to the player while bullet time is on.
pub const SP_EFFECT: i32 = 4330;

/// The character and NPC id of Torrent, the player's mount.
pub const TORRENT_ID: i32 = 8000;

/// A change to the player's SpEffects.
#[derive(Clone, Copy, Debug, PartialEq, Eq, Structural)]
pub enum SpEffectOp {
    /// Apply the effect `id`, with the given `dont_sync` flag.
    Apply { id: i32, dont_sync: bool },
    /// Remove the effect `id`.
    Remove { id: i32 },
}

/// The speeds to give the characters this frame.
#[derive(Clone, Copy, Debug, PartialEq, Eq, Structural)]
pub enum SpeedMode {
    /// The player (and Torrent) at normal speed, everyone else at bullet-time speed.
    Bullet,
    /// Everyone at normal speed.
    Normal,
}

/// What to do to the game this frame: change the player's effects in order,
/// then set the character speeds when `speeds` says so.
pub struct FramePlan {
    /// SpEffect changes for the player, in order.
    pub effects: Vec<SpEffectOp>,
    /// The speeds to set, if any.
    pub speeds: Option<SpeedMode>,
}

/// The stealth effect changes: one per id, in order, when stealth is enabled.
pub open spec fn stealth_ops(enable_stealth: bool, ids: Seq<i32>, apply: bool) -> Seq<SpEffectOp> {
    if enable_stealth {
        ids.map_values(
            |id: i32|
                if apply {
                    SpEffectOp::Apply { id, dont_sync: false }
                } else {
                    SpEffectOp::Remove { id }
                },
        )
    } else {
        Seq::<SpEffectOp>::empty()
    }
}

/// The outcome of turning bullet time on: the new active flag, the effect changes
/// and the speeds. Already on: only the speeds are kept up. Turning on with no
/// player: the flag is set and nothing else happens. Otherwise the bullet-time
/// effect (synced) and then the stealth effects are applied.
pub open spec fn enable_outcome(was_active: bool, has_main_player: bool, rules: BulletTimeRules) -> (
    bool,
    Seq<SpEffectOp>,
    Option<SpeedMode>,
) {
    if was_active {
        (true, Seq::empty(), Some(SpeedMode::Bullet))
    } else if !has_main_player {
        (true, Seq::empty(), None)
    } else {
        (
            true,
            seq![SpEffectOp::Apply { id: SP_EFFECT, dont_sync: true }] + stealth_ops(
                rules.enable_stealth,
                rules.stealth_speffect_ids@,
                true,
            ),
            Some(SpeedMode::Bullet),
        )
    }
}

/// The outcome of turning bullet time off: already off, only normal speeds are
/// kept up; turning off with no player, the flag is cleared and nothing else
/// happens; otherwise the bullet-time effect and the stealth effects are removed.
pub open spec fn disable_outcome(was_active: bool, has_main_player: bool, rules: BulletTimeRules) -> (
    bool,
    Seq<SpEffectOp>,
    Option<SpeedMode>,
) {
    if !was_active {
        (false, Seq::empty(), Some(SpeedMode::Normal))
    } else if !has_main_player {
        (false, Seq::empty(), None)
    } else {
        (
            false,
            seq![SpEffectOp::Remove { id: SP_EFFECT }] + stealth_ops(
                rules.enable_stealth,
                rules.stealth_speffect_ids@,
                false,
            ),
            Some(SpeedMode::Normal),
        )
    }
}

fn stealth_effects(rules: &BulletTimeRules, apply: bool, effects: &mut Vec<SpEffectOp>)
    ensures
        final(effects)@ == old(effects)@ + stealth_ops(rules.enable_stealth, rules.stealth_speffect_ids@, apply),
{
    if !rules.enable_stealth {
        assert(old(effects)@ + stealth_ops(rules.enable_stealth, rules.stealth_speffect_ids@, apply) =~= old(effects)@);
        return;
    }
    let ghost ops = stealth_ops(rules.enable_stealth, rules.stealth_speffect_ids@, apply);
    let n = rules.stealth_speffect_ids.len();
    let mut i: usize = 0;
    while i < n
        invariant
            n == rules.stealth_speffect_ids@.len(),
            rules.enable_stealth,
            ops == stealth_ops(rules.enable_stealth, rules.stealth_speffect_ids@, apply),
            i <= n,
            effects@ == old(effects)@ + ops.take(i as int),
        decreases n - i,
    {
        let id = rules.stealth_speffect_ids[i];
        if apply {
            effects.push(SpEffectOp::Apply { id, dont_sync: false });
        } else {
            effects.push(SpEffectOp::Remove { id });
        }
        assert(ops.take(i + 1) =~= ops.take(i as int).push(ops[i as int]));
        i = i + 1;
    }
    assert(ops.take(n as int) =~= ops);
}

/// Turns bullet time on.
pub fn enable_bullet_time(active: &mut bool, has_main_player: bool, rules: &BulletTimeRules) -> (plan: FramePlan)
    ensures
        (*final(active), plan.effects@, plan.speeds) == enable_outcome(*old(active), has_main_player, *rules),
{
    let was_active = *active;
    *active = true;
    let mut effects: Vec<SpEffectOp> = Vec::new();
    if was_active {
        return FramePlan { effects, speeds: Some(SpeedMode::Bullet) };
    }
    if !has_main_player {
        return FramePlan { effects, speeds: None };
    }
    effects.push(SpEffectOp::Apply { id: SP_EFFECT, dont_sync: true });
    stealth_effects(rules, true, &mut effects);
    FramePlan { effects, speeds: Some(SpeedMode::Bullet) }
}

/// Turns bullet time off.
pub fn disable_bullet_time(active: &mut bool, has_main_player: bool, rules: &BulletTimeRules) -> (plan: FramePlan)
    ensures
        (*final(active), plan.effects@, plan.speeds) == disable_outcome(*old(active), has_main_player, *rules),
{
    let was_active = *active;
    *active = false;
    let mut effects: Vec<SpEffectOp> = Vec::new();
    if !was_active {
        return FramePlan { effects, speeds: Some(SpeedMode::Normal) };
    }
    if !has_main_player {
        return FramePlan { effects, speeds: None };
    }
    effects.push(SpEffectOp::Remove { id: SP_EFFECT });
    stealth_effects(rules, false, &mut effects);
    FramePlan { effects, speeds: Some(SpeedMode::Normal) }
}

/// Whether a character keeps normal speed during bullet time: the local player
/// does, and so does Torrent when `include_torrent` is set (Torrent is told by its
/// NPC id, its character id, or by being the player's mount).
pub open spec fn keeps_normal_speed(
    is_local_player: bool,
    include_torrent: bool,
    npc_id: i32,
    character_id: u32,
    is_players_mount: bool,
) -> bool {
    is_local_player || (include_torrent && (npc_id == TORRENT_ID || character_id == TORRENT_ID
        || is_players_mount))
}

/// Whether a character keeps normal speed during bullet time.
pub fn uses_normal_speed(
    is_local_player: bool,
    include_torrent: bool,
    npc_id: i32,
    character_id: u32,
    is_players_mount: bool,
) -> (normal: bool)
    ensures
        normal == keeps_normal_speed(is_local_player, include_torrent, npc_id, character_id, is_players_mount),
{
    let is_torrent = include_torrent && (npc_id == TORRENT_ID || character_id == TORRENT_ID as u32
        || is_players_mount);
    is_local_player || is_torrent
}

/// Polls the combinations in order until one is pressed, as `Iterator::any` does:
/// the recorded key states after the combinations polled, and whether one was pressed.
pub open spec fn scan_pressed(prev: Map<InputKey, bool>, combos: Seq<Seq<char>>, input: RawInput) -> (
    Map<InputKey, bool>,
    bool,
)
    decreases combos.len(),
{
    if combos.len() == 0 {
        (prev, false)
    } else {
        let keys = combo_keys(combos[0]);
        let next = record_keys(prev, keys, input);
        if combo_pressed(prev, keys, input) {
            (next, true)
        } else {
            scan_pressed(next, combos.drop_first(), input)
        }
    }
}

/// Polls the combinations in order until one is down, as `Iterator::any` does.
pub open spec fn scan_down(prev: Map<InputKey, bool>, combos: Seq<Seq<char>>, input: RawInput) -> (
    Map<InputKey, bool>,
    bool,
)
    decreases combos.len(),
{
    if combos.len() == 0 {
        (prev, false)
    } else {
        let keys = combo_keys(combos[0]);
        let next = record_keys(prev, keys, input);
        if combo_down(keys, input) {
            (next, true)
        } else {
            scan_down(next, combos.drop_first(), input)
        }
    }
}

/// Whether any of the combinations is pressed, polling them in order and stopping
/// at the first that is.
pub fn any_combo_pressed(slot: &mut Option<InputManager>, combos: &Vec<String>, input: &RawInput) -> (pressed: bool)
    ensures
        (slot_view(*final(slot)).prev, pressed) == scan_pressed(slot_view(*old(slot)).prev, texts(combos@), *input),
        slot_view(*final(slot)).pad_index == slot_view(*old(slot)).pad_index,
        combos@.len() > 0 ==> *final(slot) is Some,
        combos@.len() == 0 ==> *final(slot) == *old(slot),
{
    let ghost all = texts(combos@);
    let n = combos.len();
    let mut i: usize = 0;
    assert(all.skip(0) =~= all);
    while i < n
        invariant
            n == combos@.len(),
            all == texts(combos@),
            i <= n,
            scan_pressed(slot_view(*old(slot)).prev, all, *input) == scan_pressed(slot_view(*slot).prev, all.skip(i as int), *input),
            slot_view(*slot).pad_index == slot_view(*old(slot)).pad_index,
            i > 0 ==> *slot is Some,
            i == 0 ==> *slot == *old(slot),
        decreases n - i,
    {
        let pressed = is_combo_pressed(slot, combos[i].as_str(), input);
        assert(all.skip(i as int)[0] == combos@[i as int]@);
        if pressed {
            return true;
        }
        assert(all.skip(i as int).drop_first() =~= all.skip(i + 1));
        i = i + 1;
    }
    false
}

/// Whether any of the combinations is down, polling them in order and stopping at
/// the first that is.
pub fn any_combo_down(slot: &mut Option<InputManager>, combos: &Vec<String>, input: &RawInput) -> (down: bool)
    ensures
        (slot_view(*final(slot)).prev, down) == scan_down(slot_view(*old(slot)).prev, texts(combos@), *input),
        slot_view(*final(slot)).pad_index == slot_view(*old(slot)).pad_index,
        combos@.len() > 0 ==> *final(slot) is Some,
        combos@.len() == 0 ==> *final(slot) == *old(slot),
{
    let ghost all = texts(combos@);
    let n = combos.len();
    let mut i: usize = 0;
    assert(all.skip(0) =~= all);
    while i < n
        invariant
            n == combos@.len(),
            all == texts(combos@),
            i <= n,
            scan_down(slot_view(*old(slot)).prev, all, *input) == scan_down(slot_view(*slot).prev, all.skip(i as int), *input),
            slot_view(*slot).pad_index == slot_view(*old(slot)).pad_index,
            i > 0 ==> *slot is Some,
            i == 0 ==> *slot == *old(slot),
        decreases n - i,
    {
        let down = is_combo_down(slot, combos[i].as_str(), input);
        assert(all.skip(i as int)[0] == combos@[i as int]@);
        if down {
            return true;
        }
        assert(all.skip(i as int).drop_first() =~= all.skip(i + 1));
        i = i + 1;
    }
    false
}

/// The outcome of one frame: the new active flag, the recorded key states, the
/// effect changes and the speeds. The activation combinations are polled, then the
/// deactivation ones. In toggle mode an activation toggles bullet time, else a
/// deactivation turns it off, else an active bullet time keeps its speeds up. In
/// hold mode the activation combinations are polled once more for being held, and
/// bullet time is on exactly while one is.
pub open spec fn frame_outcome(
    was_active: bool,
    prev: Map<InputKey, bool>,
    rules: BulletTimeRules,
    input: RawInput,
    has_main_player: bool,
) -> (bool, Map<InputKey, bool>, Seq<SpEffectOp>, Option<SpeedMode>) {
    let (m1, activate) = scan_pressed(prev, texts(rules.bullet_time_keys@), input);
    let (m2, deactivate) = scan_pressed(m1, texts(rules.normal_keys@), input);
    match rules.action_type {
        ActionMode::Toggle => {
            let (a, e, s) = if activate {
                if was_active {
                    disable_outcome(was_active, has_main_player, rules)
                } else {
                    enable_outcome(was_active, has_main_player, rules)
                }
            } else if deactivate {
                disable_outcome(was_active, has_main_player, rules)
            } else if was_active {
                (true, Seq::empty(), Some(SpeedMode::Bullet))
            } else {
                (false, Seq::empty(), None)
            };
            (a, m2, e, s)
        },
        ActionMode::Hold => {
            let (m3, holding) = scan_down(m2, texts(rules.bullet_time_keys@), input);
            let (a, e, s) = if holding {
                enable_outcome(was_active, has_main_player, rules)
            } else {
                disable_outcome(was_active, has_main_player, rules)
            };
            (a, m3, e, s)
        },
    }
}

/// Decides one frame of bullet time from this frame's input: updates the active
/// flag and the key states, and says what to do to the game.
pub fn update_bullet_time(
    active: &mut bool,
    slot: &mut Option<InputManager>,
    rules: &BulletTimeRules,
    input: &RawInput,
    has_main_player: bool,
) -> (plan: FramePlan)
    ensures
        (*final(active), slot_view(*final(slot)).prev, plan.effects@, plan.speeds) == frame_outcome(
            *old(active),
            slot_view(*old(slot)).prev,
            *rules,
            *input,
            has_main_player,
        ),
        slot_view(*final(slot)).pad_index == slot_view(*old(slot)).pad_index,
{
    let activate_triggered = any_combo_pressed(slot, &rules.bullet_time_keys, input);
    let deactivate_triggered = any_combo_pressed(slot, &rules.normal_keys, input);
    match rules.action_type {
        ActionMode::Toggle => {
            if activate_triggered {
                if *active {
                    disable_bullet_time(active, has_main_player, rules)
                } else {
                    enable_bullet_time(active, has_main_player, rules)
                }
            } else if deactivate_triggered {
                disable_bullet_time(active, has_main_player, rules)
            } else if *active {
                FramePlan { effects: Vec::new(), speeds: Some(SpeedMode::Bullet) }
            } else {
                FramePlan { effects: Vec::new(), speeds: None }
            }
        },
        ActionMode::Hold => {
            let is_holding_activate = any_combo_down(slot, &rules.bullet_time_keys, input);
            if is_holding_activate {
                enable_bullet_time(active, has_main_player, rules)
            } else {
                disable_bullet_time(active, has_main_player, rules)
            }
        },
    }
}

} // verus!
