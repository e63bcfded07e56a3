//! Types shared by the hardware device drivers.

use vstd::prelude::*;

verus! {

/// Errors reported by the hardware device drivers.
#[derive(Debug, Clone, Copy, PartialEq, Eq, Structural)]
pub enum HwDeviceError {
    EnumerationError,
    DeviceNotBound,
    DeviceNotOpened,
    DeviceNotInitialized,
    DeviceOpenError,
    InvalidResult,
    InvalidStatusCode,
    LedMapError,
    WriteError,
}

/// Key codes that a keyboard reports in its HID events.
#[allow(non_camel_case_types)]
#[derive(Debug, Clone, Copy, PartialEq, Eq, Structural)]
pub enum KeyboardHidEventCode {
    KEY_F1,
    KEY_F2,
    KEY_F3,
    KEY_F4,
    KEY_F5,
    KEY_F6,
    KEY_F7,
    KEY_F8,
    KEY_ESC,
    KEY_FN,
    KEY_CAPS_LOCK,
    KEY_EASY_SHIFT,
    Unknown(u8),
}

/// Events that a keyboard reports to the driver.
#[derive(Debug, Clone, Copy, PartialEq, Eq, Structural)]
pub enum KeyboardHidEvent {
    KeyDown { code: KeyboardHidEventCode },
    KeyUp { code: KeyboardHidEventCode },
    NextSlot,
    PreviousSlot,
    Unknown,
}

/// Status LEDs of a keyboard.
#[derive(Debug, Clone, Copy, PartialEq, Eq, Structural)]
pub enum LedKind {
    Unknown,
    AudioMute,
    Fx,
    Volume,
    NumLock,
    CapsLock,
    ScrollLock,
    GameMode,
}

/// What a device can do.
#[derive(Debug, Clone, Copy, PartialEq, Eq, Structural)]
pub enum Capability {
    Keyboard,
    Mouse,
    RgbLighting,
}

} // verus!
