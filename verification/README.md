# er_bullet_time

The logic of a bullet-time mod for Elden Ring, verified with Verus: the parser of
key names and key combinations, the frame-to-frame key state tracker, the
configuration defaults, and the per-frame decisions (when bullet time turns on
or off, which SpEffects the player gains or loses, which characters keep normal
speed).

- `src/` is the verified library: `text` (trimming, lowercasing, splitting,
  integer parsing), `xinput` (XInput constants read from windows-sys), `keys`
  (`InputKey` and the parsers), `input` (`KeyState`, raw input, `InputManager`),
  `config` (`ActionMode`, defaults, `BulletTimeRules`), `bullet_time` (frame
  decisions) and `laws` (properties proved across calls).
- `app/` is the DLL around it: the TOML configuration file (with the float speed
  multipliers), reading the keyboard and the pad through Win32, the process-wide
  input manager, logging, and applying each frame's plan to the game through the
  `eldenring` bindings.
