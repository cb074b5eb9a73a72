//! Bullet-time input handling and frame decisions, verified with Verus.
//!
//! `text` holds the string handling that key names go through, `xinput` the
//! XInput constants the pad keys are built from, `input` the key parser and the
//! per-frame key state tracker, `config` the configuration defaults and
//! `bullet_time` the per-frame decisions of the mod. The `laws` modules prove
//! what these operations are for: `laws` across calls, `laws_input` of raw
//! input, combinations and the per-frame scans, `laws_names` of the documented
//! key names, and `laws_numbers` of the key-code parser.

pub mod text;
pub mod xinput;
pub mod keys;
pub mod input;
pub mod config;
pub mod bullet_time;
pub mod laws;
pub mod laws_input;
pub mod laws_names;
pub mod laws_numbers;
