//! The XInput constants that pad keys are built from, read from windows-sys.

use vstd::prelude::*;
use windows_sys::Win32::UI::Input::XboxController::{
    XINPUT_GAMEPAD_DPAD_UP,
    XINPUT_GAMEPAD_DPAD_DOWN,
    XINPUT_GAMEPAD_DPAD_LEFT,
    XINPUT_GAMEPAD_DPAD_RIGHT,
    XINPUT_GAMEPAD_START,
    XINPUT_GAMEPAD_BACK,
    XINPUT_GAMEPAD_LEFT_THUMB,
    XINPUT_GAMEPAD_RIGHT_THUMB,
    XINPUT_GAMEPAD_LEFT_SHOULDER,
    XINPUT_GAMEPAD_RIGHT_SHOULDER,
    XINPUT_GAMEPAD_A,
    XINPUT_GAMEPAD_B,
    XINPUT_GAMEPAD_X,
    XINPUT_GAMEPAD_Y,
    XINPUT_GAMEPAD_LEFT_THUMB_DEADZONE,
    XINPUT_GAMEPAD_RIGHT_THUMB_DEADZONE,
    XINPUT_GAMEPAD_TRIGGER_THRESHOLD,
};

verus! {

/// Reads `XINPUT_GAMEPAD_DPAD_UP` from windows-sys, the bit of the D-pad up button in
/// `XINPUT_GAMEPAD::wButtons`; the crate defines it as 0x0001.
#[verifier::external_body]
pub(crate) fn gamepad_dpad_up() -> (mask: u16)
    ensures
        mask == 0x0001u16,
{
    XINPUT_GAMEPAD_DPAD_UP
}

/// Reads `XINPUT_GAMEPAD_DPAD_DOWN` from windows-sys, the bit of the D-pad down button in
/// `XINPUT_GAMEPAD::wButtons`; the crate defines it as 0x0002.
#[verifier::external_body]
pub(crate) fn gamepad_dpad_down() -> (mask: u16)
    ensures
        mask == 0x0002u16,
{
    XINPUT_GAMEPAD_DPAD_DOWN
}

/// Reads `XINPUT_GAMEPAD_DPAD_LEFT` from windows-sys, the bit of the D-pad left button in
/// `XINPUT_GAMEPAD::wButtons`; the crate defines it as 0x0004.
#[verifier::external_body]
pub(crate) fn gamepad_dpad_left() -> (mask: u16)
    ensures
        mask == 0x0004u16,
{
    XINPUT_GAMEPAD_DPAD_LEFT
}

/// Reads `XINPUT_GAMEPAD_DPAD_RIGHT` from windows-sys, the bit of the D-pad right button in
/// `XINPUT_GAMEPAD::wButtons`; the crate defines it as 0x0008.
#[verifier::external_body]
pub(crate) fn gamepad_dpad_right() -> (mask: u16)
    ensures
        mask == 0x0008u16,
{
    XINPUT_GAMEPAD_DPAD_RIGHT
}

/// Reads `XINPUT_GAMEPAD_START` from windows-sys, the bit of the Start button in
/// `XINPUT_GAMEPAD::wButtons`; the crate defines it as 0x0010.
#[verifier::external_body]
pub(crate) fn gamepad_start() -> (mask: u16)
    ensures
        mask == 0x0010u16,
{
    XINPUT_GAMEPAD_START
}

/// Reads `XINPUT_GAMEPAD_BACK` from windows-sys, the bit of the Back button in
/// `XINPUT_GAMEPAD::wButtons`; the crate defines it as 0x0020.
#[verifier::external_body]
pub(crate) fn gamepad_back() -> (mask: u16)
    ensures
        mask == 0x0020u16,
{
    XINPUT_GAMEPAD_BACK
}

/// Reads `XINPUT_GAMEPAD_LEFT_THUMB` from windows-sys, the bit of the left stick press (L3) in
/// `XINPUT_GAMEPAD::wButtons`; the crate defines it as 0x0040.
#[verifier::external_body]
pub(crate) fn gamepad_left_thumb() -> (mask: u16)
    ensures
        mask == 0x0040u16,
{
    XINPUT_GAMEPAD_LEFT_THUMB
}

/// Reads `XINPUT_GAMEPAD_RIGHT_THUMB` from windows-sys, the bit of the right stick press (R3) in
/// `XINPUT_GAMEPAD::wButtons`; the crate defines it as 0x0080.
#[verifier::external_body]
pub(crate) fn gamepad_right_thumb() -> (mask: u16)
    ensures
        mask == 0x0080u16,
{
    XINPUT_GAMEPAD_RIGHT_THUMB
}

/// Reads `XINPUT_GAMEPAD_LEFT_SHOULDER` from windows-sys, the bit of the left shoulder button (LB) in
/// `XINPUT_GAMEPAD::wButtons`; the crate defines it as 0x0100.
#[verifier::external_body]
pub(crate) fn gamepad_left_shoulder() -> (mask: u16)
    ensures
        mask == 0x0100u16,
{
    XINPUT_GAMEPAD_LEFT_SHOULDER
}

/// Reads `XINPUT_GAMEPAD_RIGHT_SHOULDER` from windows-sys, the bit of the right shoulder button (RB) in
/// `XINPUT_GAMEPAD::wButtons`; the crate defines it as 0x0200.
#[verifier::external_body]
pub(crate) fn gamepad_right_shoulder() -> (mask: u16)
    ensures
        mask == 0x0200u16,
{
    XINPUT_GAMEPAD_RIGHT_SHOULDER
}

/// Reads `XINPUT_GAMEPAD_A` from windows-sys, the bit of the A button in
/// `XINPUT_GAMEPAD::wButtons`; the crate defines it as 0x1000.
#[verifier::external_body]
pub(crate) fn gamepad_a() -> (mask: u16)
    ensures
        mask == 0x1000u16,
{
    XINPUT_GAMEPAD_A
}

/// Reads `XINPUT_GAMEPAD_B` from windows-sys, the bit of the B button in
/// `XINPUT_GAMEPAD::wButtons`; the crate defines it as 0x2000.
#[verifier::external_body]
pub(crate) fn gamepad_b() -> (mask: u16)
    ensures
        mask == 0x2000u16,
{
    XINPUT_GAMEPAD_B
}

/// Reads `XINPUT_GAMEPAD_X` from windows-sys, the bit of the X button in
/// `XINPUT_GAMEPAD::wButtons`; the crate defines it as 0x4000.
#[verifier::external_body]
pub(crate) fn gamepad_x() -> (mask: u16)
    ensures
        mask == 0x4000u16,
{
    XINPUT_GAMEPAD_X
}

/// Reads `XINPUT_GAMEPAD_Y` from windows-sys, the bit of the Y button in
/// `XINPUT_GAMEPAD::wButtons`; the crate defines it as 0x8000.
#[verifier::external_body]
pub(crate) fn gamepad_y() -> (mask: u16)
    ensures
        mask == 0x8000u16,
{
    XINPUT_GAMEPAD_Y
}

/// Reads `XINPUT_GAMEPAD_LEFT_THUMB_DEADZONE` from windows-sys, the dead zone of the left stick, below which a stick axis reads as centred;
/// the crate defines it as 7849.
#[verifier::external_body]
pub(crate) fn left_thumb_deadzone() -> (value: u16)
    ensures
        value == 7849u16,
{
    XINPUT_GAMEPAD_LEFT_THUMB_DEADZONE
}

/// Reads `XINPUT_GAMEPAD_RIGHT_THUMB_DEADZONE` from windows-sys, the dead zone of the right stick, below which a stick axis reads as centred;
/// the crate defines it as 8689.
#[verifier::external_body]
pub(crate) fn right_thumb_deadzone() -> (value: u16)
    ensures
        value == 8689u16,
{
    XINPUT_GAMEPAD_RIGHT_THUMB_DEADZONE
}

/// Reads `XINPUT_GAMEPAD_TRIGGER_THRESHOLD` from windows-sys, the threshold above which an analog trigger reads as pulled;
/// the crate defines it as 30.
#[verifier::external_body]
pub(crate) fn trigger_threshold() -> (value: u16)
    ensures
        value == 30u16,
{
    XINPUT_GAMEPAD_TRIGGER_THRESHOLD
}

} // verus!
