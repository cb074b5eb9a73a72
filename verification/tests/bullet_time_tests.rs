use er_bullet_time::bullet_time::{
    disable_bullet_time, enable_bullet_time, update_bullet_time, uses_normal_speed, SpEffectOp,
    SpeedMode, SP_EFFECT,
};
use er_bullet_time::config::{
    default_bullet_time_keys, default_enable_stealth, default_include_torrent, default_normal_keys,
    default_stealth_speffect_ids, ActionMode, BulletTimeRules,
};
use er_bullet_time::input::{GamepadState, InputManager, KeyReading, RawInput};

fn keys_down(vks: &[i32]) -> RawInput {
    RawInput {
        gamepad: None,
        keyboard: vks.iter().map(|&vk| KeyReading { vk, state: -1 }).collect(),
    }
}

fn pad_buttons(buttons: u16) -> RawInput {
    RawInput {
        gamepad: Some(GamepadState {
            buttons,
            left_trigger: 0,
            right_trigger: 0,
            thumb_lx: 0,
            thumb_ly: 0,
            thumb_rx: 0,
            thumb_ry: 0,
        }),
        keyboard: Vec::new(),
    }
}

fn rules(mode: ActionMode, stealth: bool) -> BulletTimeRules {
    let mut r = BulletTimeRules::default();
    r.action_type = mode;
    r.enable_stealth = stealth;
    r
}

#[test]
fn defaults() {
    assert_eq!(ActionMode::default(), ActionMode::Hold);
    assert!(default_include_torrent());
    assert!(default_enable_stealth());
    assert_eq!(default_stealth_speffect_ids(), vec![4100]);
    assert_eq!(default_bullet_time_keys(), vec!["O", "lthumbpress+xa", "PadRSUp"]);
    assert_eq!(default_normal_keys(), vec!["P", "lthumbpress+xb", "PadRSDown"]);
    let r = BulletTimeRules::default();
    assert_eq!(r.action_type, ActionMode::Hold);
    assert!(r.include_torrent);
    assert!(r.enable_stealth);
    assert_eq!(r.stealth_speffect_ids, vec![4100]);
    assert_eq!(r.bullet_time_keys, default_bullet_time_keys());
    assert_eq!(r.normal_keys, default_normal_keys());
}

#[test]
fn enabling_applies_effects_once() {
    let r = rules(ActionMode::Toggle, true);
    let mut active = false;
    let plan = enable_bullet_time(&mut active, true, &r);
    assert!(active);
    assert_eq!(
        plan.effects,
        vec![
            SpEffectOp::Apply { id: SP_EFFECT, dont_sync: true },
            SpEffectOp::Apply { id: 4100, dont_sync: false },
        ]
    );
    assert_eq!(plan.speeds, Some(SpeedMode::Bullet));
    let again = enable_bullet_time(&mut active, true, &r);
    assert!(active);
    assert!(again.effects.is_empty());
    assert_eq!(again.speeds, Some(SpeedMode::Bullet));
}

#[test]
fn enabling_without_stealth_or_player() {
    let mut r = rules(ActionMode::Toggle, false);
    r.stealth_speffect_ids = vec![4100, 4101];
    let mut active = false;
    let plan = enable_bullet_time(&mut active, true, &r);
    assert_eq!(plan.effects, vec![SpEffectOp::Apply { id: 4330, dont_sync: true }]);
    let mut active2 = false;
    let none = enable_bullet_time(&mut active2, false, &r);
    assert!(active2);
    assert!(none.effects.is_empty());
    assert_eq!(none.speeds, None);
}

#[test]
fn disabling_undoes_enabling() {
    let mut r = rules(ActionMode::Toggle, true);
    r.stealth_speffect_ids = vec![4100, 4101];
    let mut active = false;
    let on = enable_bullet_time(&mut active, true, &r);
    let off = disable_bullet_time(&mut active, true, &r);
    assert!(!active);
    assert_eq!(off.speeds, Some(SpeedMode::Normal));
    let applied: Vec<i32> = on
        .effects
        .iter()
        .map(|e| match e {
            SpEffectOp::Apply { id, .. } => *id,
            SpEffectOp::Remove { .. } => panic!("unexpected removal"),
        })
        .collect();
    let removed: Vec<i32> = off
        .effects
        .iter()
        .map(|e| match e {
            SpEffectOp::Remove { id } => *id,
            SpEffectOp::Apply { .. } => panic!("unexpected application"),
        })
        .collect();
    assert_eq!(applied, vec![4330, 4100, 4101]);
    assert_eq!(applied, removed);
    let again = disable_bullet_time(&mut active, true, &r);
    assert!(again.effects.is_empty());
    assert_eq!(again.speeds, Some(SpeedMode::Normal));
    let mut active2 = true;
    let no_player = disable_bullet_time(&mut active2, false, &r);
    assert!(!active2);
    assert_eq!(no_player.speeds, None);
}

#[test]
fn torrent_and_player_keep_normal_speed() {
    assert!(uses_normal_speed(true, false, 0, 0, false));
    assert!(uses_normal_speed(false, true, 8000, 0, false));
    assert!(uses_normal_speed(false, true, 0, 8000, false));
    assert!(uses_normal_speed(false, true, 0, 0, true));
    assert!(!uses_normal_speed(false, false, 8000, 8000, true));
    assert!(!uses_normal_speed(false, true, 7999, 8001, false));
}

#[test]
fn hold_mode_follows_the_keys() {
    let r = rules(ActionMode::Hold, true);
    let mut active = false;
    let mut slot: Option<InputManager> = None;
    let o = keys_down(&[0x4F]);
    let none = keys_down(&[]);
    let first = update_bullet_time(&mut active, &mut slot, &r, &o, true);
    assert!(active);
    assert_eq!(first.effects.len(), 2);
    assert_eq!(first.speeds, Some(SpeedMode::Bullet));
    let second = update_bullet_time(&mut active, &mut slot, &r, &o, true);
    assert!(active);
    assert!(second.effects.is_empty());
    assert_eq!(second.speeds, Some(SpeedMode::Bullet));
    let released = update_bullet_time(&mut active, &mut slot, &r, &none, true);
    assert!(!active);
    assert_eq!(
        released.effects,
        vec![SpEffectOp::Remove { id: 4330 }, SpEffectOp::Remove { id: 4100 }]
    );
    let idle = update_bullet_time(&mut active, &mut slot, &r, &none, true);
    assert!(!active);
    assert!(idle.effects.is_empty());
    assert_eq!(idle.speeds, Some(SpeedMode::Normal));
}

#[test]
fn toggle_mode_switches_on_presses() {
    let r = rules(ActionMode::Toggle, false);
    let mut active = false;
    let mut slot: Option<InputManager> = None;
    let o = keys_down(&[0x4F]);
    let p = keys_down(&[0x50]);
    let none = keys_down(&[]);
    let nothing = update_bullet_time(&mut active, &mut slot, &r, &none, true);
    assert!(!active);
    assert_eq!(nothing.speeds, None);
    let on = update_bullet_time(&mut active, &mut slot, &r, &o, true);
    assert!(active);
    assert_eq!(on.effects, vec![SpEffectOp::Apply { id: 4330, dont_sync: true }]);
    let held = update_bullet_time(&mut active, &mut slot, &r, &o, true);
    assert!(active);
    assert!(held.effects.is_empty());
    assert_eq!(held.speeds, Some(SpeedMode::Bullet));
    let _ = update_bullet_time(&mut active, &mut slot, &r, &none, true);
    let off = update_bullet_time(&mut active, &mut slot, &r, &o, true);
    assert!(!active);
    assert_eq!(off.effects, vec![SpEffectOp::Remove { id: 4330 }]);
    let on_again = update_bullet_time(&mut active, &mut slot, &r, &none, true);
    assert!(!active);
    assert_eq!(on_again.speeds, None);
    let _ = update_bullet_time(&mut active, &mut slot, &r, &o, true);
    assert!(active);
    let deact = update_bullet_time(&mut active, &mut slot, &r, &p, true);
    assert!(!active);
    assert_eq!(deact.effects, vec![SpEffectOp::Remove { id: 4330 }]);
}

#[test]
fn pad_combo_activates_in_toggle_mode() {
    let r = rules(ActionMode::Toggle, false);
    let mut active = false;
    let mut slot: Option<InputManager> = None;
    let _ = update_bullet_time(&mut active, &mut slot, &r, &pad_buttons(0x0040), true);
    assert!(!active);
    let _ = update_bullet_time(&mut active, &mut slot, &r, &pad_buttons(0x0040 | 0x1000), true);
    assert!(active);
    let _ = update_bullet_time(&mut active, &mut slot, &r, &pad_buttons(0x0040 | 0x2000), true);
    assert!(!active);
}
