//! The settings of the mod that its decisions read, and their defaults.

use vstd::prelude::*;

verus! {

/// How the bullet-time keys act.
#[derive(Clone, Copy, Debug, PartialEq, Eq, Structural)]
pub enum ActionMode {
    /// Press once to turn bullet time on, press again to turn it off.
    Toggle,
    /// Bullet time lasts while the keys are held.
    Hold,
}

impl Default for ActionMode {
    fn default() -> (m: Self)
        ensures
            m == ActionMode::Hold,
    {
        ActionMode::Hold
    }
}

/// By default Torrent, the player's mount, keeps normal speed like the player.
pub fn default_include_torrent() -> (b: bool)
    ensures
        b,
{
    true
}

/// By default the stealth effects are applied during bullet time.
pub fn default_enable_stealth() -> (b: bool)
    ensures
        b,
{
    true
}

/// The stealth SpEffect applied by default: 4100.
pub fn default_stealth_speffect_ids() -> (ids: Vec<i32>)
    ensures
        ids@ == seq![4100i32],
{
    let mut ids: Vec<i32> = Vec::new();
    ids.push(4100);
    assert(ids@ =~= seq![4100i32]);
    ids
}

/// The views of a list of strings.
pub open spec fn texts(v: Seq<String>) -> Seq<Seq<char>> {
    v.map_values(|s: String| s@)
}

/// The default key combinations that turn bullet time on: `O`, `lthumbpress+xa`, `PadRSUp`.
pub fn default_bullet_time_keys() -> (keys: Vec<String>)
    ensures
        texts(keys@) == seq!["O"@, "lthumbpress+xa"@, "PadRSUp"@],
{
    let mut keys: Vec<String> = Vec::new();
    keys.push("O".to_string());
    keys.push("lthumbpress+xa".to_string());
    keys.push("PadRSUp".to_string());
    assert(texts(keys@) =~= seq!["O"@, "lthumbpress+xa"@, "PadRSUp"@]);
    keys
}

/// The default key combinations that turn bullet time off: `P`, `lthumbpress+xb`, `PadRSDown`.
pub fn default_normal_keys() -> (keys: Vec<String>)
    ensures
        texts(keys@) == seq!["P"@, "lthumbpress+xb"@, "PadRSDown"@],
{
    let mut keys: Vec<String> = Vec::new();
    keys.push("P".to_string());
    keys.push("lthumbpress+xb".to_string());
    keys.push("PadRSDown".to_string());
    assert(texts(keys@) =~= seq!["P"@, "lthumbpress+xb"@, "PadRSDown"@]);
    keys
}

/// The bullet-time settings that the mod's decisions read; the two speed
/// multipliers are kept beside them by the caller, who applies them.
pub struct BulletTimeRules {
    /// Toggle or hold.
    pub action_type: ActionMode,
    /// Whether Torrent keeps normal speed like the player.
    pub include_torrent: bool,
    /// Whether the stealth effects are applied during bullet time.
    pub enable_stealth: bool,
    /// The stealth SpEffects applied during bullet time.
    pub stealth_speffect_ids: Vec<i32>,
    /// Key combinations that turn bullet time on (or toggle it).
    pub bullet_time_keys: Vec<String>,
    /// Key combinations that turn bullet time off.
    pub normal_keys: Vec<String>,
}

impl Default for BulletTimeRules {
    fn default() -> (r: Self)
        ensures
            r.action_type == ActionMode::Hold,
            r.include_torrent,
            r.enable_stealth,
            r.stealth_speffect_ids@ == seq![4100i32],
            texts(r.bullet_time_keys@) == seq!["O"@, "lthumbpress+xa"@, "PadRSUp"@],
            texts(r.normal_keys@) == seq!["P"@, "lthumbpress+xb"@, "PadRSDown"@],
    {
        BulletTimeRules {
            action_type: ActionMode::Hold,
            include_torrent: default_include_torrent(),
            enable_stealth: default_enable_stealth(),
            stealth_speffect_ids: default_stealth_speffect_ids(),
            bullet_time_keys: default_bullet_time_keys(),
            normal_keys: default_normal_keys(),
        }
    }
}

} // verus!
