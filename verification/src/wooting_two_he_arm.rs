//! Driver logic for the Wooting Two HE (ARM) keyboard.
//!
//! The driver state is a plain value; the HID handles live with the caller,
//! which performs the transfers that the functions here decide on.

use vstd::prelude::*;

use crate::hwdevices::{Capability, HwDeviceError, KeyboardHidEvent, KeyboardHidEventCode, LedKind};
use crate::text::push_char;
use crate::wooting_tables::{
    ev_key_index_iso, spec_ev_key_index_iso, COLS_TOPOLOGY, COL_LEN, EMPTY_COLUMN, EMPTY_ROW, ROWS_TOPOLOGY, ROW_LEN,
    TOPOLOGY_COLUMNS,
};

verus! {

/// USB interface number of the control sub device.
pub const CTRL_INTERFACE: i32 = 1;

/// USB interface number of the LED sub device.
pub const LED_INTERFACE: i32 = 2;

pub const NUM_ROWS: usize = 6;

pub const NUM_COLS: usize = 21;

pub const NUM_KEYS: usize = 127;

pub const LED_INDICES: usize = 127;

pub const SMALL_PACKET_SIZE: usize = 64;

pub const SMALL_PACKET_COUNT: usize = 4;

pub const RESPONSE_SIZE: usize = 256;

pub const READ_RESPONSE_TIMEOUT: i32 = 1000;

/// Command id of a raw colors report (Wooting protocol v2).
pub const RAW_COLORS_REPORT: u8 = 11;

/// Command id that resets all keys (Wooting protocol v2).
pub const RESET_ALL_COMMAND: u8 = 32;

/// Command id that initializes the color engine (Wooting protocol v2).
pub const COLOR_INIT_COMMAND: u8 = 33;

// ---------------------------------------------------------------------------
// Key codes
// ---------------------------------------------------------------------------

/// The key code that a `(report, code)` pair of a key report stands for.
pub open spec fn spec_event_code_from_report(report: u8, code: u8) -> KeyboardHidEventCode {
    if report == 0xfb {
        if code == 16 {
            KeyboardHidEventCode::KEY_F1
        } else if code == 24 {
            KeyboardHidEventCode::KEY_F2
        } else if code == 33 {
            KeyboardHidEventCode::KEY_F3
        } else if code == 32 {
            KeyboardHidEventCode::KEY_F4
        } else if code == 40 {
            KeyboardHidEventCode::KEY_F5
        } else if code == 48 {
            KeyboardHidEventCode::KEY_F6
        } else if code == 56 {
            KeyboardHidEventCode::KEY_F7
        } else if code == 57 {
            KeyboardHidEventCode::KEY_F8
        } else if code == 17 {
            KeyboardHidEventCode::KEY_ESC
        } else if code == 119 {
            KeyboardHidEventCode::KEY_FN
        } else {
            KeyboardHidEventCode::Unknown(code)
        }
    } else if report == 0x0a {
        if code == 57 {
            KeyboardHidEventCode::KEY_CAPS_LOCK
        } else if code == 255 {
            KeyboardHidEventCode::KEY_EASY_SHIFT
        } else {
            KeyboardHidEventCode::Unknown(code)
        }
    } else {
        KeyboardHidEventCode::Unknown(code)
    }
}

/// The report code that the device uses for a key code.
pub open spec fn spec_event_code_to_report(code: KeyboardHidEventCode) -> u8 {
    match code {
        KeyboardHidEventCode::KEY_F1 => 16,
        KeyboardHidEventCode::KEY_F2 => 24,
        KeyboardHidEventCode::KEY_F3 => 33,
        KeyboardHidEventCode::KEY_F4 => 32,
        KeyboardHidEventCode::KEY_F5 => 40,
        KeyboardHidEventCode::KEY_F6 => 48,
        KeyboardHidEventCode::KEY_F7 => 56,
        KeyboardHidEventCode::KEY_F8 => 57,
        KeyboardHidEventCode::KEY_ESC => 17,
        KeyboardHidEventCode::KEY_FN => 119,
        KeyboardHidEventCode::KEY_CAPS_LOCK => 57,
        KeyboardHidEventCode::KEY_EASY_SHIFT => 57,
        KeyboardHidEventCode::Unknown(c) => c,
    }
}

/// Decodes the key code of a key report.
pub fn keyboard_hid_event_code_from_report(report: u8, code: u8) -> (r: KeyboardHidEventCode)
    ensures
        r == spec_event_code_from_report(report, code),
{
    match report {
        0xfb => match code {
            16 => KeyboardHidEventCode::KEY_F1,
            24 => KeyboardHidEventCode::KEY_F2,
            33 => KeyboardHidEventCode::KEY_F3,
            32 => KeyboardHidEventCode::KEY_F4,
            40 => KeyboardHidEventCode::KEY_F5,
            48 => KeyboardHidEventCode::KEY_F6,
            56 => KeyboardHidEventCode::KEY_F7,
            57 => KeyboardHidEventCode::KEY_F8,
            17 => KeyboardHidEventCode::KEY_ESC,
            119 => KeyboardHidEventCode::KEY_FN,
            _ => KeyboardHidEventCode::Unknown(code),
        },
        0x0a => match code {
            57 => KeyboardHidEventCode::KEY_CAPS_LOCK,
            255 => KeyboardHidEventCode::KEY_EASY_SHIFT,
            _ => KeyboardHidEventCode::Unknown(code),
        },
        _ => KeyboardHidEventCode::Unknown(code),
    }
}

/// Decoding a key report and encoding the key code again gives back the
/// report's code, except for the Easy Shift key, which the device reports as
/// code 255 but which is written back as the Caps Lock code.
pub proof fn lemma_report_code_round_trip(report: u8, code: u8)
    requires
        !(report == 0x0a && code == 255),
    ensures
        spec_event_code_to_report(spec_event_code_from_report(report, code)) == code,
{
}

/// Every key code other than Caps Lock and Easy Shift survives encoding it
/// and decoding it as a `0xfb` key report.
pub proof fn lemma_code_report_round_trip(code: KeyboardHidEventCode)
    requires
        code != KeyboardHidEventCode::KEY_CAPS_LOCK,
        code != KeyboardHidEventCode::KEY_EASY_SHIFT,
        code is Unknown ==> spec_event_code_from_report(0xfb, code->Unknown_0) is Unknown,
    ensures
        spec_event_code_from_report(0xfb, spec_event_code_to_report(code)) == code,
{
}

/// The report codes of the keys that a `0xfb` key report names, with the
/// key each stands for, as the device defines them.
pub open spec fn device_key_report_codes() -> Seq<(u8, KeyboardHidEventCode)> {
    seq![
        (16u8, KeyboardHidEventCode::KEY_F1),
        (24u8, KeyboardHidEventCode::KEY_F2),
        (33u8, KeyboardHidEventCode::KEY_F3),
        (32u8, KeyboardHidEventCode::KEY_F4),
        (40u8, KeyboardHidEventCode::KEY_F5),
        (48u8, KeyboardHidEventCode::KEY_F6),
        (56u8, KeyboardHidEventCode::KEY_F7),
        (57u8, KeyboardHidEventCode::KEY_F8),
        (17u8, KeyboardHidEventCode::KEY_ESC),
        (119u8, KeyboardHidEventCode::KEY_FN),
    ]
}

/// The key codes of `0xfb` key reports follow the device's table: each
/// listed report code decodes to its key and that key encodes back to it;
/// every other code decodes to an unknown key carrying the code. In `0x0a`
/// reports, 57 is Caps Lock and 255 Easy Shift (both written back as 57),
/// and every other code is unknown; in any other report every code is
/// unknown.
pub proof fn lemma_key_report_code_table(code: u8, report: u8)
    ensures
        forall|i: int| 0 <= i < device_key_report_codes().len() ==> {
            &&& spec_event_code_from_report(0xfb, (#[trigger] device_key_report_codes()[i]).0)
                == device_key_report_codes()[i].1
            &&& spec_event_code_to_report(device_key_report_codes()[i].1) == device_key_report_codes()[i].0
        },
        (forall|i: int| 0 <= i < device_key_report_codes().len() ==> (#[trigger] device_key_report_codes()[i]).0 != code)
            ==> spec_event_code_from_report(0xfb, code) == KeyboardHidEventCode::Unknown(code),
        spec_event_code_from_report(0x0a, 57) == KeyboardHidEventCode::KEY_CAPS_LOCK,
        spec_event_code_from_report(0x0a, 255) == KeyboardHidEventCode::KEY_EASY_SHIFT,
        spec_event_code_to_report(KeyboardHidEventCode::KEY_CAPS_LOCK) == 57,
        spec_event_code_to_report(KeyboardHidEventCode::KEY_EASY_SHIFT) == 57,
        code != 57 && code != 255 ==> spec_event_code_from_report(0x0a, code) == KeyboardHidEventCode::Unknown(code),
        report != 0xfb && report != 0x0a ==> spec_event_code_from_report(report, code) == KeyboardHidEventCode::Unknown(code),
{
    let t = device_key_report_codes();
    if forall|i: int| 0 <= i < t.len() ==> (#[trigger] t[i]).0 != code {
        assert(t[0].0 != code);
        assert(t[1].0 != code);
        assert(t[2].0 != code);
        assert(t[3].0 != code);
        assert(t[4].0 != code);
        assert(t[5].0 != code);
        assert(t[6].0 != code);
        assert(t[7].0 != code);
        assert(t[8].0 != code);
        assert(t[9].0 != code);
    }
}

// ---------------------------------------------------------------------------
// Driver state
// ---------------------------------------------------------------------------

/// The state of a Wooting Two HE (ARM) driver instance.
#[derive(Debug, Clone, Copy, PartialEq, Eq, Structural)]
pub struct WootingTwoHeArm {
    pub is_initialized: bool,
    pub is_bound: bool,
    pub is_opened: bool,
    pub has_failed: bool,
    pub brightness: i32,
}

impl WootingTwoHeArm {
    /// The answer to a request that needs the HID devices to be open.
    pub open spec fn open_check(self) -> Result<(), HwDeviceError> {
        if !self.is_bound {
            Err(HwDeviceError::DeviceNotBound)
        } else if !self.is_opened {
            Err(HwDeviceError::DeviceNotOpened)
        } else {
            Ok(())
        }
    }

    /// The answer to a request that needs the device to be open and
    /// initialized.
    pub open spec fn ready_check(self) -> Result<(), HwDeviceError> {
        if !self.is_bound {
            Err(HwDeviceError::DeviceNotBound)
        } else if !self.is_opened {
            Err(HwDeviceError::DeviceNotOpened)
        } else if !self.is_initialized {
            Err(HwDeviceError::DeviceNotInitialized)
        } else {
            Ok(())
        }
    }

    /// The state right after binding the driver to a device.
    pub open spec fn spec_bound() -> WootingTwoHeArm {
        WootingTwoHeArm {
            is_initialized: false,
            is_bound: true,
            is_opened: false,
            has_failed: false,
            brightness: 100,
        }
    }

    /// The state after an attempt to open the two HID devices.
    pub open spec fn spec_open(self, ctrl_opened: bool, led_opened: bool) -> (
        WootingTwoHeArm,
        Result<(), HwDeviceError>,
    ) {
        if !self.is_bound {
            (self, Err(HwDeviceError::DeviceNotBound))
        } else if !ctrl_opened || !led_opened {
            (self, Err(HwDeviceError::DeviceOpenError))
        } else {
            (WootingTwoHeArm { is_opened: true, ..self }, Ok(()))
        }
    }

    /// The state after closing the HID devices.
    pub open spec fn spec_close_all(self) -> (WootingTwoHeArm, Result<(), HwDeviceError>) {
        match self.open_check() {
            Err(e) => (self, Err(e)),
            Ok(()) => (WootingTwoHeArm { is_opened: false, ..self }, Ok(())),
        }
    }

    /// The state after setting the device specific brightness.
    pub open spec fn spec_set_brightness(self, brightness: i32) -> WootingTwoHeArm {
        WootingTwoHeArm { brightness, ..self }
    }

    /// The state after marking the device failed.
    pub open spec fn spec_fail(self) -> WootingTwoHeArm {
        WootingTwoHeArm { has_failed: true, ..self }
    }

    /// The state after the init sequence.
    pub open spec fn spec_init(self) -> WootingTwoHeArm {
        match self.open_check() {
            Err(_) => self,
            Ok(()) => WootingTwoHeArm { is_initialized: true, ..self },
        }
    }

    /// Binds the driver to a device: bound, not yet opened nor initialized,
    /// at full brightness.
    pub fn bind() -> (r: Self)
        ensures
            r == Self::spec_bound(),
    {
        WootingTwoHeArm {
            is_initialized: false,
            is_bound: true,
            is_opened: false,
            has_failed: false,
            brightness: 100,
        }
    }

    /// Refuses a request unless the driver is bound and its devices are open.
    pub fn check_opened(&self) -> (r: Result<(), HwDeviceError>)
        ensures
            r == self.open_check(),
    {
        if !self.is_bound {
            Err(HwDeviceError::DeviceNotBound)
        } else if !self.is_opened {
            Err(HwDeviceError::DeviceNotOpened)
        } else {
            Ok(())
        }
    }

    /// Refuses a request unless the driver is bound, open and initialized.
    pub fn check_ready(&self) -> (r: Result<(), HwDeviceError>)
        ensures
            r == self.ready_check(),
    {
        if !self.is_bound {
            Err(HwDeviceError::DeviceNotBound)
        } else if !self.is_opened {
            Err(HwDeviceError::DeviceNotOpened)
        } else if !self.is_initialized {
            Err(HwDeviceError::DeviceNotInitialized)
        } else {
            Ok(())
        }
    }

    /// Records the outcome of opening the control and the LED device.
    pub fn open(&mut self, ctrl_opened: bool, led_opened: bool) -> (r: Result<(), HwDeviceError>)
        ensures
            (*final(self), r) == old(self).spec_open(ctrl_opened, led_opened),
    {
        if !self.is_bound {
            Err(HwDeviceError::DeviceNotBound)
        } else if !ctrl_opened || !led_opened {
            Err(HwDeviceError::DeviceOpenError)
        } else {
            self.is_opened = true;
            Ok(())
        }
    }

    /// Closes the HID devices.
    pub fn close_all(&mut self) -> (r: Result<(), HwDeviceError>)
        ensures
            (*final(self), r) == old(self).spec_close_all(),
    {
        match self.check_opened() {
            Err(e) => Err(e),
            Ok(()) => {
                self.is_opened = false;
                Ok(())
            },
        }
    }

    /// Sends a control report; the device accepts it only while open.
    pub fn send_ctrl_report(&mut self, _id: u8) -> (r: Result<(), HwDeviceError>)
        ensures
            r == old(self).open_check(),
            *final(self) == *old(self),
    {
        self.check_opened()
    }

    /// Whether the init sequence has been sent.
    pub fn is_initialized(&self) -> (r: Result<bool, HwDeviceError>)
        ensures
            r == Ok::<bool, HwDeviceError>(self.is_initialized),
    {
        Ok(self.is_initialized)
    }

    /// Whether the device has been marked as failed.
    pub fn has_failed(&self) -> (r: Result<bool, HwDeviceError>)
        ensures
            r == Ok::<bool, HwDeviceError>(self.has_failed),
    {
        Ok(self.has_failed)
    }

    /// Marks the device as failed.
    pub fn fail(&mut self) -> (r: Result<(), HwDeviceError>)
        ensures
            r is Ok,
            *final(self) == old(self).spec_fail(),
    {
        self.has_failed = true;
        Ok(())
    }

    /// Sets the device specific brightness.
    pub fn set_local_brightness(&mut self, brightness: i32) -> (r: Result<(), HwDeviceError>)
        ensures
            r is Ok,
            *final(self) == old(self).spec_set_brightness(brightness),
    {
        self.brightness = brightness;
        Ok(())
    }

    /// The device specific brightness.
    pub fn get_local_brightness(&self) -> (r: Result<i32, HwDeviceError>)
        ensures
            r == Ok::<i32, HwDeviceError>(self.brightness),
    {
        Ok(self.brightness)
    }

    /// The key index of a key code.
    pub fn hid_event_code_to_key_index(&self, code: &KeyboardHidEventCode) -> (r: u8)
        ensures
            r == (match *code {
                KeyboardHidEventCode::KEY_FN => 65u8,
                KeyboardHidEventCode::KEY_CAPS_LOCK => 6u8,
                KeyboardHidEventCode::KEY_EASY_SHIFT => 6u8,
                _ => 0u8,
            }),
    {
        match code {
            KeyboardHidEventCode::KEY_FN => 65,
            KeyboardHidEventCode::KEY_CAPS_LOCK => 6,
            KeyboardHidEventCode::KEY_EASY_SHIFT => 6,
            _ => 0,
        }
    }

    /// The report code that the device uses for a key code.
    pub fn hid_event_code_to_report(&self, code: &KeyboardHidEventCode) -> (r: u8)
        ensures
            r == spec_event_code_to_report(*code),
    {
        match code {
            KeyboardHidEventCode::KEY_F1 => 16,
            KeyboardHidEventCode::KEY_F2 => 24,
            KeyboardHidEventCode::KEY_F3 => 33,
            KeyboardHidEventCode::KEY_F4 => 32,
            KeyboardHidEventCode::KEY_F5 => 40,
            KeyboardHidEventCode::KEY_F6 => 48,
            KeyboardHidEventCode::KEY_F7 => 56,
            KeyboardHidEventCode::KEY_F8 => 57,
            KeyboardHidEventCode::KEY_ESC => 17,
            KeyboardHidEventCode::KEY_FN => 119,
            KeyboardHidEventCode::KEY_CAPS_LOCK => 57,
            KeyboardHidEventCode::KEY_EASY_SHIFT => 57,
            KeyboardHidEventCode::Unknown(code) => *code,
        }
    }
}

/// A call of a driver method that changes the driver state, with its
/// arguments (the outcome of the two opens for `open`).
#[derive(Debug, Clone, Copy)]
pub enum DriverCall {
    Open { ctrl_opened: bool, led_opened: bool },
    CloseAll,
    SendInitSequence,
    SendCtrlReport { id: u8 },
    Fail,
    SetLocalBrightness { brightness: i32 },
}

/// The state after a call, as the method's contract gives it.
pub open spec fn spec_after_call(s: WootingTwoHeArm, call: DriverCall) -> WootingTwoHeArm {
    match call {
        DriverCall::Open { ctrl_opened, led_opened } => s.spec_open(ctrl_opened, led_opened).0,
        DriverCall::CloseAll => s.spec_close_all().0,
        DriverCall::SendInitSequence => s.spec_init(),
        DriverCall::SendCtrlReport { .. } => s,
        DriverCall::Fail => s.spec_fail(),
        DriverCall::SetLocalBrightness { brightness } => s.spec_set_brightness(brightness),
    }
}

/// The state after a sequence of calls, in order.
pub open spec fn spec_after_calls(s: WootingTwoHeArm, calls: Seq<DriverCall>) -> WootingTwoHeArm
    decreases calls.len(),
{
    if calls.len() == 0 {
        s
    } else {
        spec_after_calls(spec_after_call(s, calls[0]), calls.drop_first())
    }
}

/// Once bound, the driver stays bound through any sequence of calls; no
/// call binds an unbound driver; and a driver whose devices are open is
/// bound, whatever the calls.
pub proof fn lemma_binding_is_kept(s: WootingTwoHeArm, calls: Seq<DriverCall>)
    ensures
        spec_after_calls(s, calls).is_bound == s.is_bound,
        (s.is_opened ==> s.is_bound) ==> (spec_after_calls(s, calls).is_opened ==> spec_after_calls(s, calls).is_bound),
    decreases calls.len(),
{
    if calls.len() > 0 {
        lemma_binding_is_kept(spec_after_call(s, calls[0]), calls.drop_first());
    }
}

/// Starting from a freshly bound driver, every sequence of calls leaves it
/// bound.
pub proof fn lemma_bound_driver_stays_bound(calls: Seq<DriverCall>)
    ensures
        spec_after_calls(WootingTwoHeArm::spec_bound(), calls).is_bound,
{
    lemma_binding_is_kept(WootingTwoHeArm::spec_bound(), calls);
}

/// A freshly bound driver whose two devices open becomes open, and after the
/// init sequence it is ready: requests that need an initialized device are
/// no longer refused.
pub proof fn lemma_bind_open_init_ready()
    ensures
        ({
            let (opened, r) = WootingTwoHeArm::spec_bound().spec_open(true, true);
            &&& r is Ok
            &&& opened.open_check() is Ok
            &&& opened.ready_check() == Err::<(), HwDeviceError>(HwDeviceError::DeviceNotInitialized)
            &&& opened.spec_init().ready_check() is Ok
        }),
{
}

/// Closing the devices undoes opening them; afterwards requests are refused
/// as not opened.
pub proof fn lemma_close_undoes_open(s: WootingTwoHeArm)
    requires
        s.is_bound,
        !s.is_opened,
    ensures
        s.spec_open(true, true).0.spec_close_all() == (s, Ok::<(), HwDeviceError>(())),
        s.open_check() == Err::<(), HwDeviceError>(HwDeviceError::DeviceNotOpened),
{
}

/// A failed open attempt changes nothing.
pub proof fn lemma_failed_open_keeps_state(s: WootingTwoHeArm, ctrl_opened: bool, led_opened: bool)
    requires
        !ctrl_opened || !led_opened || !s.is_bound,
    ensures
        s.spec_open(ctrl_opened, led_opened).0 == s,
        s.spec_open(ctrl_opened, led_opened).1 is Err,
{
}

/// A request is refused with the first of: not bound, not opened, not
/// initialized; a device that is not ready also refuses requests that need
/// an initialized device.
pub proof fn lemma_refusal_order(s: WootingTwoHeArm)
    ensures
        s.open_check() is Err ==> s.ready_check() == s.open_check(),
        s.open_check() is Ok ==> (s.ready_check() is Ok <==> s.is_initialized),
        s.ready_check() is Ok ==> s.open_check() is Ok,
{
}

/// The brightness reads back as set, nothing else changes with it, and
/// marking the device failed keeps it; neither touches the state of the
/// devices, so no request is refused or admitted because of them.
pub proof fn lemma_brightness_read_back(s: WootingTwoHeArm, brightness: i32)
    ensures
        s.spec_set_brightness(brightness).brightness == brightness,
        s.spec_set_brightness(brightness).spec_set_brightness(s.brightness) == s,
        s.spec_set_brightness(brightness).spec_fail().brightness == brightness,
        s.spec_set_brightness(brightness).ready_check() == s.ready_check(),
        s.spec_fail().ready_check() == s.ready_check(),
{
}

// ---------------------------------------------------------------------------
// Reports sent to and received from the device
// ---------------------------------------------------------------------------

/// The bytes of a feature report of the Wooting protocol v2: report id 0,
/// the magic `0xd0 0xda`, the command id, the four parameters in reverse
/// order, and zeros up to the size of a small packet plus the report id.
pub open spec fn spec_feature_report(id: u8, params: Seq<u8>) -> Seq<u8> {
    seq![0x00u8, 0xd0u8, 0xdau8, id, params[3], params[2], params[1], params[0]]
        + Seq::new(57, |_i: int| 0u8)
}

/// The two feature reports of the init sequence: reset all keys, then
/// initialize the color engine.
pub open spec fn spec_init_reports(reports: Seq<Vec<u8>>) -> bool {
    &&& reports.len() == 2
    &&& reports[0]@ == spec_feature_report(RESET_ALL_COMMAND, seq![0u8, 0u8, 0u8, 0u8])
    &&& reports[1]@ == spec_feature_report(COLOR_INIT_COMMAND, seq![0u8, 0u8, 0u8, 0u8])
}

/// The 8 bytes written to light a status LED, if the LED can be set.
pub open spec fn spec_status_led_report(led_kind: LedKind) -> Option<Seq<u8>> {
    match led_kind {
        LedKind::NumLock => Some(seq![0x21u8, 0u8, 0u8, 0u8, 0u8, 0u8, 0u8, 0u8]),
        LedKind::CapsLock => Some(seq![0x22u8, 0u8, 0u8, 0u8, 0u8, 0u8, 0u8, 0u8]),
        LedKind::ScrollLock => Some(seq![0x23u8, 0u8, 0u8, 0u8, 0u8, 0u8, 0u8, 0u8]),
        LedKind::GameMode => Some(seq![0x24u8, 0u8, 0u8, 0u8, 0u8, 0u8, 0u8, 0u8]),
        _ => None,
    }
}

/// The event that an 8 byte input report of the control device stands for.
pub open spec fn spec_event_from_report(buf: Seq<u8>) -> KeyboardHidEvent {
    let code = buf[3];
    let status = buf[4];
    if buf[0] == 0x03 && buf[1] == 0x00 && buf[2] == 0xfb {
        if status == 0x00 {
            KeyboardHidEvent::KeyUp { code: spec_event_code_from_report(0xfb, code) }
        } else if status == 0x01 {
            KeyboardHidEvent::KeyDown { code: spec_event_code_from_report(0xfb, code) }
        } else {
            KeyboardHidEvent::Unknown
        }
    } else if buf[0] == 0x03 && buf[1] == 0x00 && buf[2] == 0x0a {
        if code == 0x39 || code == 0xff {
            if status == 0x00 {
                KeyboardHidEvent::KeyDown { code: spec_event_code_from_report(0x0a, code) }
            } else if status == 0x01 {
                KeyboardHidEvent::KeyUp { code: spec_event_code_from_report(0x0a, code) }
            } else {
                KeyboardHidEvent::Unknown
            }
        } else {
            KeyboardHidEvent::Unknown
        }
    } else {
        KeyboardHidEvent::Unknown
    }
}

/// A key report of the `0xfb` kind with a press or release status decodes
/// to a key event whose key code encodes back to the reported code.
pub proof fn lemma_key_event_code_encodes_back(buf: Seq<u8>)
    requires
        buf.len() == 8,
        buf[0] == 0x03,
        buf[1] == 0x00,
        buf[2] == 0xfb,
        buf[4] <= 1,
    ensures
        spec_event_from_report(buf) matches KeyboardHidEvent::KeyDown { code } ==> spec_event_code_to_report(code) == buf[3],
        spec_event_from_report(buf) matches KeyboardHidEvent::KeyUp { code } ==> spec_event_code_to_report(code) == buf[3],
        spec_event_from_report(buf) is KeyDown || spec_event_from_report(buf) is KeyUp,
{
    lemma_report_code_round_trip(0xfb, buf[3]);
}

/// How key reports decode. A report starting `03 00 0a` is the Caps Lock
/// or Easy Shift key (code `0x39` or `0xff`): status 0 is a press and
/// status 1 a release of that key; any other code or status is unknown. A
/// report starting `03 00 fb` is a release at status 0 and a press at
/// status 1 of the key its code decodes to; any other status is unknown.
/// Every other report is unknown.
pub proof fn lemma_key_report_events(buf: Seq<u8>)
    requires
        buf.len() == 8,
    ensures
        buf[0] == 0x03 && buf[1] == 0x00 && buf[2] == 0x0a ==> {
            &&& buf[3] == 0x39 && buf[4] == 0x00 ==> spec_event_from_report(buf)
                == (KeyboardHidEvent::KeyDown { code: KeyboardHidEventCode::KEY_CAPS_LOCK })
            &&& buf[3] == 0x39 && buf[4] == 0x01 ==> spec_event_from_report(buf)
                == (KeyboardHidEvent::KeyUp { code: KeyboardHidEventCode::KEY_CAPS_LOCK })
            &&& buf[3] == 0xff && buf[4] == 0x00 ==> spec_event_from_report(buf)
                == (KeyboardHidEvent::KeyDown { code: KeyboardHidEventCode::KEY_EASY_SHIFT })
            &&& buf[3] == 0xff && buf[4] == 0x01 ==> spec_event_from_report(buf)
                == (KeyboardHidEvent::KeyUp { code: KeyboardHidEventCode::KEY_EASY_SHIFT })
            &&& (buf[3] != 0x39 && buf[3] != 0xff) || buf[4] > 1 ==> spec_event_from_report(buf)
                == KeyboardHidEvent::Unknown
        },
        buf[0] == 0x03 && buf[1] == 0x00 && buf[2] == 0xfb ==> {
            &&& buf[4] == 0x00 ==> spec_event_from_report(buf)
                == (KeyboardHidEvent::KeyUp { code: spec_event_code_from_report(0xfb, buf[3]) })
            &&& buf[4] == 0x01 ==> spec_event_from_report(buf)
                == (KeyboardHidEvent::KeyDown { code: spec_event_code_from_report(0xfb, buf[3]) })
            &&& buf[4] > 1 ==> spec_event_from_report(buf) == KeyboardHidEvent::Unknown
        },
        !(buf[0] == 0x03 && buf[1] == 0x00 && (buf[2] == 0xfb || buf[2] == 0x0a)) ==> spec_event_from_report(buf)
            == KeyboardHidEvent::Unknown,
{
}

/// The firmware revision text has four characters: the hundreds of the
/// version as a decimal digit, a dot, and the rest of the version right
/// aligned in two columns (a space, then the units digit, below ten; the
/// tens and the units digit otherwise).
pub proof fn lemma_firmware_revision_text(version: u8)
    ensures
        ({
            let t = spec_firmware_revision(version);
            let minor = version % 100;
            &&& t.len() == 4
            &&& t[0] as int - 48 == version / 100
            &&& t[1] == '.'
            &&& (minor < 10 ==> t[2] == ' ' && t[3] as int - 48 == minor)
            &&& (minor >= 10 ==> (t[2] as int - 48) * 10 + (t[3] as int - 48) == minor
                && 1 <= t[2] as int - 48 <= 9 && 0 <= t[3] as int - 48 <= 9)
        }),
{
    let minor = version % 100;
    assert(minor / 10 * 10 + minor % 10 == minor);
}

/// Device information as the device reports it (HID feature report 0x0f).
#[derive(Debug, Clone, Copy, PartialEq, Eq, Structural)]
pub struct DeviceInfo {
    pub report_id: u8,
    pub size: u8,
    pub firmware_version: u8,
    pub reserved1: u8,
    pub reserved2: u8,
    pub reserved3: u8,
}

impl DeviceInfo {
    /// Reads the fields from the bytes of the feature report, in order.
    pub fn from_bytes(buf: &[u8; 6]) -> (r: DeviceInfo)
        ensures
            r.report_id == buf@[0],
            r.size == buf@[1],
            r.firmware_version == buf@[2],
            r.reserved1 == buf@[3],
            r.reserved2 == buf@[4],
            r.reserved3 == buf@[5],
    {
        DeviceInfo {
            report_id: buf[0],
            size: buf[1],
            firmware_version: buf[2],
            reserved1: buf[3],
            reserved2: buf[4],
            reserved3: buf[5],
        }
    }
}

/// The decimal digit `d` as a character.
pub open spec fn spec_digit(d: int) -> char {
    ((48 + d) as u8) as char
}

/// The firmware revision as the driver shows it: the version divided by
/// 100, a dot, and the remainder right-aligned in two columns.
pub open spec fn spec_firmware_revision(version: u8) -> Seq<char> {
    let major = version / 100;
    let minor = version % 100;
    seq![spec_digit(major as int), '.'] + if minor < 10 {
        seq![' ', spec_digit(minor as int)]
    } else {
        seq![spec_digit((minor / 10) as int), spec_digit((minor % 10) as int)]
    }
}

fn digit(d: u8) -> (c: char)
    requires
        d < 10,
    ensures
        c == spec_digit(d as int),
{
    (48u8 + d) as char
}

fn zero_bytes(v: &mut Vec<u8>, n: usize)
    requires
        old(v)@.len() + n <= usize::MAX,
    ensures
        final(v)@ == old(v)@ + Seq::new(n as nat, |_i: int| 0u8),
{
    let mut k: usize = 0;
    while k < n
        invariant
            k <= n,
            v@ == old(v)@ + Seq::new(k as nat, |_i: int| 0u8),
        decreases n - k,
    {
        v.push(0u8);
        k = k + 1;
        assert(v@ =~= old(v)@ + Seq::new(k as nat, |_i: int| 0u8));
    }
}

impl WootingTwoHeArm {
    /// Builds a feature report of the Wooting protocol v2.
    pub fn v2_feature_report(id: u8, params: &[u8; 4]) -> (r: Vec<u8>)
        ensures
            r@ == spec_feature_report(id, params@),
    {
        let mut report_buffer: Vec<u8> = Vec::new();
        report_buffer.push(0x00);
        report_buffer.push(0xd0);
        report_buffer.push(0xda);
        report_buffer.push(id);
        report_buffer.push(params[3]);
        report_buffer.push(params[2]);
        report_buffer.push(params[1]);
        report_buffer.push(params[0]);
        zero_bytes(&mut report_buffer, 57);
        assert(report_buffer@ =~= spec_feature_report(id, params@));
        report_buffer
    }

    /// Starts the init sequence: refused unless the devices are open;
    /// otherwise marks the device initialized and returns the reports to
    /// send, in order.
    pub fn send_init_sequence(&mut self) -> (r: Result<Vec<Vec<u8>>, HwDeviceError>)
        ensures
            *final(self) == old(self).spec_init(),
            match old(self).open_check() {
                Err(e) => r == Err::<Vec<Vec<u8>>, HwDeviceError>(e),
                Ok(()) => r is Ok && spec_init_reports(r->Ok_0@),
            },
    {
        match self.check_opened() {
            Err(e) => Err(e),
            Ok(()) => {
                let mut reports: Vec<Vec<u8>> = Vec::new();
                reports.push(Self::v2_feature_report(RESET_ALL_COMMAND, &[0, 0, 0, 0]));
                reports.push(Self::v2_feature_report(COLOR_INIT_COMMAND, &[0, 0, 0, 0]));
                self.is_initialized = true;
                proof {
                    assert(seq![0u8, 0u8, 0u8, 0u8] =~= [0u8, 0u8, 0u8, 0u8]@);
                }
                Ok(reports)
            },
        }
    }

    /// The request buffer for the device information (feature report
    /// 0x0f); refused unless the devices are open.
    pub fn device_info_request(&self) -> (r: Result<Vec<u8>, HwDeviceError>)
        ensures
            match self.open_check() {
                Err(e) => r == Err::<Vec<u8>, HwDeviceError>(e),
                Ok(()) => r is Ok && r->Ok_0@ == seq![0x0fu8, 0u8, 0u8, 0u8, 0u8, 0u8],
            },
    {
        match self.check_opened() {
            Err(e) => Err(e),
            Ok(()) => {
                let mut buf: Vec<u8> = Vec::new();
                buf.push(0x0f);
                zero_bytes(&mut buf, 5);
                assert(buf@ =~= seq![0x0fu8, 0u8, 0u8, 0u8, 0u8, 0u8]);
                Ok(buf)
            },
        }
    }

    /// The device information: refused unless the devices are open (then
    /// no request is made); otherwise read from the reply to the request, a
    /// failed transfer (`None`) being an invalid result.
    pub fn get_device_info(&self, reply: Option<&[u8; 6]>) -> (r: Result<DeviceInfo, HwDeviceError>)
        ensures
            match self.open_check() {
                Err(e) => r == Err::<DeviceInfo, HwDeviceError>(e),
                Ok(()) => match reply {
                    None => r == Err::<DeviceInfo, HwDeviceError>(HwDeviceError::InvalidResult),
                    Some(buf) => r is Ok && r->Ok_0.firmware_version == buf@[2]
                        && r->Ok_0.report_id == buf@[0] && r->Ok_0.size == buf@[1]
                        && r->Ok_0.reserved1 == buf@[3] && r->Ok_0.reserved2 == buf@[4]
                        && r->Ok_0.reserved3 == buf@[5],
                },
            },
    {
        match self.check_opened() {
            Err(e) => Err(e),
            Ok(()) => match reply {
                None => Err(HwDeviceError::InvalidResult),
                Some(buf) => Ok(DeviceInfo::from_bytes(buf)),
            },
        }
    }

    /// The firmware revision text, or `<unknown>` when the device
    /// information could not be read.
    pub fn get_firmware_revision(device_info: Result<DeviceInfo, HwDeviceError>) -> (r: String)
        ensures
            match device_info {
                Ok(info) => r@ == spec_firmware_revision(info.firmware_version),
                Err(_) => r@ == "<unknown>"@,
            },
    {
        match device_info {
            Ok(info) => {
                let version = info.firmware_version;
                let major = version / 100;
                let minor = version % 100;
                let mut text = String::new();
                push_char(&mut text, digit(major));
                push_char(&mut text, '.');
                if minor < 10 {
                    push_char(&mut text, ' ');
                    push_char(&mut text, digit(minor));
                } else {
                    push_char(&mut text, digit(minor / 10));
                    push_char(&mut text, digit(minor % 10));
                }
                assert(text@ =~= spec_firmware_revision(version));
                text
            },
            Err(_) => String::from_str("<unknown>"),
        }
    }

    /// Sets a status LED: Num Lock, Caps Lock, Scroll Lock and Game Mode
    /// take an 8 byte report, which is refused unless the device is ready;
    /// the other LEDs need nothing.
    pub fn set_status_led(&self, led_kind: LedKind, on: bool) -> (r: Result<Option<Vec<u8>>, HwDeviceError>)
        ensures
            match spec_status_led_report(led_kind) {
                None => r == Ok::<Option<Vec<u8>>, HwDeviceError>(None),
                Some(payload) => match self.ready_check() {
                    Err(e) => r == Err::<Option<Vec<u8>>, HwDeviceError>(e),
                    Ok(()) => r is Ok && r->Ok_0 is Some && r->Ok_0->Some_0@ == payload,
                },
            },
    {
        let first: u8 = match led_kind {
            LedKind::NumLock => 0x21,
            LedKind::CapsLock => 0x22,
            LedKind::ScrollLock => 0x23,
            LedKind::GameMode => 0x24,
            _ => {
                return Ok(None);
            },
        };
        match self.check_ready() {
            Err(e) => Err(e),
            Ok(()) => {
                let mut payload: Vec<u8> = Vec::new();
                payload.push(first);
                zero_bytes(&mut payload, 7);
                assert(payload@ =~= spec_status_led_report(led_kind)->Some_0);
                Ok(Some(payload))
            },
        }
    }

    /// Decodes an 8 byte input report of the control device.
    pub fn parse_key_report(buf: &[u8; 8]) -> (r: KeyboardHidEvent)
        ensures
            r == spec_event_from_report(buf@),
    {
        let fn_down = false;
        let code = buf[3];
        let status = buf[4];
        if buf[0] == 0x03 && buf[1] == 0x00 && buf[2] == 0xfb {
            if code == 0x6d && fn_down {
                KeyboardHidEvent::PreviousSlot
            } else if code == 0x7d && fn_down {
                KeyboardHidEvent::NextSlot
            } else if status == 0x00 {
                KeyboardHidEvent::KeyUp { code: keyboard_hid_event_code_from_report(0xfb, code) }
            } else if status == 0x01 {
                KeyboardHidEvent::KeyDown { code: keyboard_hid_event_code_from_report(0xfb, code) }
            } else {
                KeyboardHidEvent::Unknown
            }
        } else if buf[0] == 0x03 && buf[1] == 0x00 && buf[2] == 0x0a {
            if code == 0x39 || code == 0xff {
                if status == 0x00 {
                    KeyboardHidEvent::KeyDown { code: keyboard_hid_event_code_from_report(0x0a, code) }
                } else if status == 0x01 {
                    KeyboardHidEvent::KeyUp { code: keyboard_hid_event_code_from_report(0x0a, code) }
                } else {
                    KeyboardHidEvent::Unknown
                }
            } else {
                KeyboardHidEvent::Unknown
            }
        } else {
            KeyboardHidEvent::Unknown
        }
    }

    /// The next event: refused unless the device is ready (then nothing is
    /// read); otherwise decoded from the input report read, a failed read
    /// (`None`) being an invalid result.
    pub fn get_next_event_timeout(&self, read: Option<&[u8; 8]>) -> (r: Result<KeyboardHidEvent, HwDeviceError>)
        ensures
            match self.ready_check() {
                Err(e) => r == Err::<KeyboardHidEvent, HwDeviceError>(e),
                Ok(()) => match read {
                    None => r == Err::<KeyboardHidEvent, HwDeviceError>(HwDeviceError::InvalidResult),
                    Some(buf) => r == Ok::<KeyboardHidEvent, HwDeviceError>(spec_event_from_report(buf@)),
                },
            },
    {
        match self.check_ready() {
            Err(e) => Err(e),
            Ok(()) => match read {
                None => Err(HwDeviceError::InvalidResult),
                Some(buf) => Ok(Self::parse_key_report(buf)),
            },
        }
    }
}


// ---------------------------------------------------------------------------
// LED map
// ---------------------------------------------------------------------------

/// Size of the buffer in which a raw colors report is assembled.
pub const BUFFER_SIZE: usize = 4 + (SMALL_PACKET_COUNT * (SMALL_PACKET_SIZE + 1)) + 2;

/// Byte `p` of the assembled raw colors report for the encoded colors
/// `colors`: the header `00 d0 da 0b`, then the colors in order, two bytes
/// each, little endian, skipping the two bytes at each multiple of 64 (the
/// end of one packet and the report id of the next), which stay zero.
pub open spec fn spec_led_buffer_byte(colors: Seq<u16>, p: int) -> u8 {
    if p < 4 {
        seq![0x00u8, 0xd0u8, 0xdau8, RAW_COLORS_REPORT][p]
    } else if p % 64 == 0 || p % 64 == 1 {
        0u8
    } else if p % 2 == 0 {
        (colors[(p - 4) / 2 - p / 64] % 256) as u8
    } else {
        (colors[(p - 5) / 2 - p / 64] / 256) as u8
    }
}

/// Packet `k` of a raw colors report: the 65 bytes from `64 * k` on.
pub open spec fn spec_led_packet(colors: Seq<u16>, k: int) -> Seq<u8> {
    Seq::new(65, |j: int| spec_led_buffer_byte(colors, 64 * k + j))
}

/// The four packets that carry a LED map to the device, in order.
pub open spec fn spec_led_packets(colors: Seq<u16>, packets: Seq<Vec<u8>>) -> bool {
    &&& packets.len() == SMALL_PACKET_COUNT
    &&& forall|k: int| 0 <= k < SMALL_PACKET_COUNT ==> #[trigger] packets[k]@ == spec_led_packet(colors, k)
}

/// The answer to a LED map of the given encoded colors.
pub open spec fn spec_led_map_answer(
    state: WootingTwoHeArm,
    colors: Seq<u16>,
    r: Result<Vec<Vec<u8>>, HwDeviceError>,
) -> bool {
    match state.ready_check() {
        Err(e) => r == Err::<Vec<Vec<u8>>, HwDeviceError>(e),
        Ok(()) => if colors.len() < LED_INDICES {
            r == Err::<Vec<Vec<u8>>, HwDeviceError>(HwDeviceError::LedMapError)
        } else {
            r is Ok && spec_led_packets(colors, r->Ok_0@)
        },
    }
}

proof fn lemma_led_step_color(i: int)
    requires
        4 <= i <= 264,
        i % 2 == 0,
        i % 64 != 0,
    ensures
        (i - 4) / 2 - (i - 1) / 64 == (i - 4) / 2 - i / 64,
        (i + 1) % 64 != 0,
        (i + 1) % 64 != 1,
        (i + 1) % 2 == 1,
        i % 64 != 1,
        (i + 1 - 5) / 2 - (i + 1) / 64 == (i - 4) / 2 - i / 64,
        (i + 2 - 4) / 2 - (i + 1) / 64 == (i - 4) / 2 - i / 64 + 1,
        (i + 1) / 64 == (i - 1) / 64,
        (i - 4) / 2 - i / 64 <= 126,
        (i - 4) / 2 - i / 64 >= 0,
{
}

proof fn lemma_led_step_packet(i: int)
    requires
        64 <= i <= 256,
        i % 64 == 0,
    ensures
        (i + 2 - 4) / 2 - (i + 1) / 64 == (i - 4) / 2 - (i - 1) / 64,
        (i + 1) / 64 == (i - 1) / 64 + 1,
        (i - 1) / 64 == i / 64 - 1,
        64 * ((i - 1) / 64) == i - 64,
        (i + 1) % 64 == 1,
{
}

impl WootingTwoHeArm {
    /// Splits a LED map of encoded colors (RGB 5-6-5, already scaled by the
    /// brightness) into the packets of a raw colors report. Refused unless
    /// the device is ready; a map shorter than the number of LEDs is an
    /// error.
    pub fn send_led_map(&self, encoded_colors: &[u16]) -> (r: Result<Vec<Vec<u8>>, HwDeviceError>)
        ensures
            spec_led_map_answer(*self, encoded_colors@, r),
    {
        match self.check_ready() {
            Err(e) => {
                return Err(e);
            },
            Ok(()) => {},
        }
        if encoded_colors.len() < LED_INDICES {
            return Err(HwDeviceError::LedMapError);
        }
        let ghost colors = encoded_colors@;
        let mut buffer: Vec<u8> = Vec::new();
        zero_bytes(&mut buffer, BUFFER_SIZE);
        buffer.set(1, 0xd0);
        buffer.set(2, 0xda);
        buffer.set(3, RAW_COLORS_REPORT);
        let mut packets: Vec<Vec<u8>> = Vec::new();
        let mut cntr: usize = 0;
        let mut i: usize = 4;
        assert forall|p: int| 0 <= p < 4 implies buffer@[p] == spec_led_buffer_byte(colors, p) by {}
        while i < BUFFER_SIZE
            invariant
                4 <= i <= BUFFER_SIZE,
                i % 2 == 0,
                colors == encoded_colors@,
                colors.len() >= LED_INDICES,
                buffer@.len() == BUFFER_SIZE,
                forall|p: int| 0 <= p < i ==> #[trigger] buffer@[p] == spec_led_buffer_byte(colors, p),
                forall|p: int| i <= p < BUFFER_SIZE ==> #[trigger] buffer@[p] == 0u8,
                cntr == (i - 4) / 2 - (i - 1) / 64,
                packets@.len() == (i - 1) / 64,
                forall|k: int| 0 <= k < packets@.len() ==> #[trigger] packets@[k]@ == spec_led_packet(colors, k),
            decreases BUFFER_SIZE - i,
        {
            if i % 64 == 0 {
                proof {
                    lemma_led_step_packet(i as int);
                }
                buffer.set(i, 0x0);
                let packet = vstd::slice::slice_to_vec(
                    vstd::slice::slice_subrange(buffer.as_slice(), i - 64, i + 1),
                );
                proof {
                    let k = packets@.len() as int;
                    assert(packet@ =~= spec_led_packet(colors, k)) by {
                        assert forall|j: int| 0 <= j < 65 implies packet@[j] == spec_led_buffer_byte(colors, 64 * k + j) by {
                            assert(packet@[j] == buffer@[i - 64 + j]);
                        }
                    }
                }
                let ghost old_packets = packets@;
                packets.push(packet);
                proof {
                    assert forall|k: int| 0 <= k < packets@.len() implies #[trigger] packets@[k]@ == spec_led_packet(colors, k) by {
                        if k < packets@.len() - 1 {
                            assert(packets@[k] == old_packets[k]);
                        }
                    }
                }
            } else {
                proof {
                    lemma_led_step_color(i as int);
                }
                let encoded_color = encoded_colors[cntr];
                buffer.set(i, (encoded_color % 256) as u8);
                buffer.set(i + 1, (encoded_color / 256) as u8);
                cntr = cntr + 1;
            }
            i = i + 2;
        }
        proof {
            assert((BUFFER_SIZE - 1) / 64 == 4);
        }
        Ok(packets)
    }

    /// Whether a packet was written completely: a failed write (`None`) or
    /// a short one is a write error.
    pub fn submit_packet_result(written: Option<usize>) -> (r: Result<(), HwDeviceError>)
        ensures
            match written {
                Some(len) if len >= SMALL_PACKET_SIZE + 1 => r is Ok,
                _ => r == Err::<(), HwDeviceError>(HwDeviceError::WriteError),
            },
    {
        match written {
            Some(len) => if len < SMALL_PACKET_SIZE + 1 {
                Err(HwDeviceError::WriteError)
            } else {
                Ok(())
            },
            None => Err(HwDeviceError::WriteError),
        }
    }

    /// Turns all LEDs off by sending a map of `canvas_size` black colors.
    pub fn set_led_off_pattern(&self, canvas_size: usize) -> (r: Result<Vec<Vec<u8>>, HwDeviceError>)
        ensures
            spec_led_map_answer(*self, Seq::new(canvas_size as nat, |_i: int| 0u16), r),
    {
        match self.check_ready() {
            Err(e) => Err(e),
            Ok(()) => {
                let led_map: Vec<u16> = zero_colors(canvas_size);
                self.send_led_map(led_map.as_slice())
            },
        }
    }

    /// The LED pattern shown while the device initializes: all LEDs off.
    pub fn set_led_init_pattern(&self, canvas_size: usize) -> (r: Result<Vec<Vec<u8>>, HwDeviceError>)
        ensures
            spec_led_map_answer(*self, Seq::new(canvas_size as nat, |_i: int| 0u16), r),
    {
        match self.check_ready() {
            Err(e) => Err(e),
            Ok(()) => {
                let led_map: Vec<u16> = zero_colors(canvas_size);
                self.send_led_map(led_map.as_slice())
            },
        }
    }
}

fn zero_colors(n: usize) -> (v: Vec<u16>)
    ensures
        v@ == Seq::new(n as nat, |_i: int| 0u16),
{
    let mut v: Vec<u16> = Vec::new();
    let mut k: usize = 0;
    while k < n
        invariant
            k <= n,
            v@ == Seq::new(k as nat, |_i: int| 0u16),
        decreases n - k,
    {
        v.push(0u16);
        k = k + 1;
        assert(v@ =~= Seq::new(k as nat, |_i: int| 0u16));
    }
    v
}

// ---------------------------------------------------------------------------
// Key topology
// ---------------------------------------------------------------------------

impl WootingTwoHeArm {
    /// The key index of an evdev key code (ISO variant): the table value
    /// shifted by one, saturating, so a code without a key gives 255.
    pub fn ev_key_to_key_index(&self, key: u32) -> (r: u8)
        ensures
            r == spec_ev_key_index_iso(key as int).saturating_add(1),
    {
        ev_key_index_iso(key).saturating_add(1)
    }

    /// Returns the number of keys.
    pub fn get_num_keys(&self) -> (r: usize)
        ensures
            r == NUM_KEYS,
    {
        NUM_KEYS
    }

    /// Returns the number of rows (vertical number of keys).
    pub fn get_num_rows(&self) -> (r: usize)
        ensures
            r == NUM_ROWS,
    {
        NUM_ROWS
    }

    /// Returns the number of columns (horizontal number of keys).
    pub fn get_num_cols(&self) -> (r: usize)
        ensures
            r == NUM_COLS,
    {
        NUM_COLS
    }

    /// Returns the indices of the keys in row `row` (255 where there is no
    /// key); a row past the last one has no keys.
    pub fn get_row_topology(&self, row: usize) -> (r: &'static [u8])
        ensures
            row < NUM_ROWS ==> r@ == ROWS_TOPOLOGY@.subrange(row * ROW_LEN, row * ROW_LEN + ROW_LEN),
            row >= NUM_ROWS ==> r@ == Seq::new(ROW_LEN as nat, |_i: int| 255u8),
    {
        if row < NUM_ROWS {
            let idx = row * ROW_LEN;
            &ROWS_TOPOLOGY[idx..(idx + ROW_LEN)]
        } else {
            assert(EMPTY_ROW@ =~= Seq::new(ROW_LEN as nat, |_i: int| 255u8));
            &EMPTY_ROW
        }
    }

    /// Returns the indices of the keys in column `col` (255 where there is
    /// no key); a column past the last one of the table has no keys.
    pub fn get_col_topology(&self, col: usize) -> (r: &'static [u8])
        ensures
            col < TOPOLOGY_COLUMNS ==> r@ == COLS_TOPOLOGY@.subrange(col * COL_LEN, col * COL_LEN + COL_LEN),
            col >= TOPOLOGY_COLUMNS ==> r@ == Seq::new(COL_LEN as nat, |_i: int| 255u8),
    {
        if col < TOPOLOGY_COLUMNS {
            let idx = col * COL_LEN;
            &COLS_TOPOLOGY[idx..(idx + COL_LEN)]
        } else {
            assert(EMPTY_COLUMN@ =~= Seq::new(COL_LEN as nat, |_i: int| 255u8));
            &EMPTY_COLUMN
        }
    }
}

// ---------------------------------------------------------------------------
// Binding to the HID devices
// ---------------------------------------------------------------------------

/// What the driver reads of an enumerated HID device.
#[derive(Debug, Clone)]
pub struct HidDeviceEntry {
    pub vendor_id: u16,
    pub product_id: u16,
    pub serial_number: Option<String>,
    pub interface_number: i32,
}

/// The serial number of a device, the empty string where it has none.
pub open spec fn spec_serial(device: HidDeviceEntry) -> Seq<char> {
    match device.serial_number {
        Some(s) => s@,
        None => Seq::empty(),
    }
}

/// Whether a device is the given interface of the keyboard with the given
/// ids and serial number.
pub open spec fn spec_device_matches(
    device: HidDeviceEntry,
    usb_vid: u16,
    usb_pid: u16,
    serial: Seq<char>,
    interface: i32,
) -> bool {
    &&& device.vendor_id == usb_vid
    &&& device.product_id == usb_pid
    &&& spec_serial(device) == serial
    &&& device.interface_number == interface
}

/// `index` is the first device of the list that matches.
pub open spec fn spec_first_match(
    devices: Seq<HidDeviceEntry>,
    index: int,
    usb_vid: u16,
    usb_pid: u16,
    serial: Seq<char>,
    interface: i32,
) -> bool {
    &&& 0 <= index < devices.len()
    &&& spec_device_matches(devices[index], usb_vid, usb_pid, serial, interface)
    &&& forall|j: int| 0 <= j < index ==> !spec_device_matches(#[trigger] devices[j], usb_vid, usb_pid, serial, interface)
}

/// No device of the list matches.
pub open spec fn spec_no_match(
    devices: Seq<HidDeviceEntry>,
    usb_vid: u16,
    usb_pid: u16,
    serial: Seq<char>,
    interface: i32,
) -> bool {
    forall|j: int| 0 <= j < devices.len() ==> !spec_device_matches(#[trigger] devices[j], usb_vid, usb_pid, serial, interface)
}

fn serial_matches(device: &HidDeviceEntry, serial: &String) -> (r: bool)
    ensures
        r == (spec_serial(*device) == serial@),
{
    match &device.serial_number {
        Some(s) => *s == *serial,
        None => {
            let empty = serial.as_str().is_empty();
            proof {
                if empty {
                    assert(serial@ =~= Seq::<char>::empty());
                }
            }
            empty
        },
    }
}

/// Finds the first device that is the given interface of the keyboard.
pub fn find_device(
    devices: &[HidDeviceEntry],
    usb_vid: u16,
    usb_pid: u16,
    serial: &str,
    interface: i32,
) -> (r: Option<usize>)
    ensures
        match r {
            Some(i) => spec_first_match(devices@, i as int, usb_vid, usb_pid, serial@, interface),
            None => spec_no_match(devices@, usb_vid, usb_pid, serial@, interface),
        },
{
    let wanted = String::from_str(serial);
    let mut i: usize = 0;
    while i < devices.len()
        invariant
            i <= devices@.len(),
            wanted@ == serial@,
            forall|j: int| 0 <= j < i ==> !spec_device_matches(#[trigger] devices@[j], usb_vid, usb_pid, serial@, interface),
        decreases devices@.len() - i,
    {
        let device = &devices[i];
        if device.vendor_id == usb_vid && device.product_id == usb_pid && serial_matches(device, &wanted)
            && device.interface_number == interface {
            return Some(i);
        }
        i = i + 1;
    }
    None
}

/// Binds the driver to a keyboard: finds its control and its LED interface
/// among the enumerated devices and returns their positions; an
/// enumeration error if either is missing.
pub fn bind_hiddev(devices: &[HidDeviceEntry], usb_vid: u16, usb_pid: u16, serial: &str) -> (r: Result<(usize, usize), HwDeviceError>)
    ensures
        match r {
            Ok((ctrl, led)) => spec_first_match(devices@, ctrl as int, usb_vid, usb_pid, serial@, CTRL_INTERFACE)
                && spec_first_match(devices@, led as int, usb_vid, usb_pid, serial@, LED_INTERFACE),
            Err(e) => e == HwDeviceError::EnumerationError
                && (spec_no_match(devices@, usb_vid, usb_pid, serial@, CTRL_INTERFACE)
                    || spec_no_match(devices@, usb_vid, usb_pid, serial@, LED_INTERFACE)),
        },
{
    let ctrl_dev = find_device(devices, usb_vid, usb_pid, serial, CTRL_INTERFACE);
    let led_dev = find_device(devices, usb_vid, usb_pid, serial, LED_INTERFACE);
    match (ctrl_dev, led_dev) {
        (Some(ctrl), Some(led)) => Ok((ctrl, led)),
        _ => Err(HwDeviceError::EnumerationError),
    }
}

impl WootingTwoHeArm {
    /// What the device can do: a keyboard with RGB lighting.
    pub fn get_device_capabilities(&self) -> (r: Vec<Capability>)
        ensures
            r@ == seq![Capability::Keyboard, Capability::RgbLighting],
    {
        let mut caps: Vec<Capability> = Vec::new();
        caps.push(Capability::Keyboard);
        caps.push(Capability::RgbLighting);
        assert(caps@ =~= seq![Capability::Keyboard, Capability::RgbLighting]);
        caps
    }

    /// The support script of the device.
    pub fn get_support_script_file(&self) -> (r: String)
        ensures
            r@ == "keyboards/wooting_two_he_arm"@,
    {
        String::from_str("keyboards/wooting_two_he_arm")
    }
}

// ---------------------------------------------------------------------------
// Key coordinates
// ---------------------------------------------------------------------------

/// The position of a key packed in one byte: the column in the low five
/// bits, the row in the high three.
#[derive(Debug, Clone, Copy, PartialEq, Eq, Structural)]
pub struct KeyCoordinates {
    bits: u8,
}

impl KeyCoordinates {
    /// The packed byte.
    pub closed spec fn spec_bits(self) -> u8 {
        self.bits
    }

    /// The coordinates packed in a byte.
    pub closed spec fn spec_from_bits(bits: u8) -> KeyCoordinates {
        KeyCoordinates { bits }
    }

    /// The packed byte is the one the coordinates were made of.
    pub proof fn lemma_bits_of_from_bits(bits: u8)
        ensures
            Self::spec_from_bits(bits).spec_bits() == bits,
    {
    }

    /// The column stored in the low five bits.
    pub open spec fn spec_column(self) -> u8 {
        (self.spec_bits() % 32) as u8
    }

    /// The row stored in the high three bits.
    pub open spec fn spec_row(self) -> u8 {
        (self.spec_bits() / 32) as u8
    }

    /// Coordinates with all bits clear.
    pub fn new() -> (r: Self)
        ensures
            r.spec_bits() == 0,
    {
        KeyCoordinates { bits: 0 }
    }

    /// Coordinates from their packed byte.
    pub fn from_bits(bits: u8) -> (r: Self)
        ensures
            r.spec_bits() == bits,
    {
        KeyCoordinates { bits }
    }

    /// The packed byte.
    pub fn into_bits(self) -> (r: u8)
        ensures
            r == self.spec_bits(),
    {
        self.bits
    }

    /// The column.
    pub fn column(&self) -> (r: u8)
        ensures
            r == self.spec_column(),
    {
        self.bits % 32
    }

    /// The row.
    pub fn row(&self) -> (r: u8)
        ensures
            r == self.spec_row(),
    {
        self.bits / 32
    }

    /// The same coordinates with another column.
    pub fn with_column(self, column: u8) -> (r: Self)
        requires
            column < 32,
        ensures
            r.spec_bits() == (self.spec_row() * 32 + column) as u8,
    {
        KeyCoordinates { bits: (self.bits / 32) * 32 + column }
    }

    /// The same coordinates with another row.
    pub fn with_row(self, row: u8) -> (r: Self)
        requires
            row < 8,
        ensures
            r.spec_bits() == (row * 32 + self.spec_column()) as u8,
    {
        KeyCoordinates { bits: row * 32 + self.bits % 32 }
    }
}

/// Setting the column of key coordinates changes the column and keeps the
/// row; setting the row changes the row and keeps the column.
pub proof fn lemma_key_coordinates_fields(c: KeyCoordinates, column: u8, row: u8)
    requires
        column < 32,
        row < 8,
    ensures
        ({
            let d = KeyCoordinates::spec_from_bits((c.spec_row() * 32 + column) as u8);
            d.spec_column() == column && d.spec_row() == c.spec_row()
        }),
        ({
            let d = KeyCoordinates::spec_from_bits((row * 32 + c.spec_column()) as u8);
            d.spec_row() == row && d.spec_column() == c.spec_column()
        }),
{
    KeyCoordinates::lemma_bits_of_from_bits((c.spec_row() * 32 + column) as u8);
    KeyCoordinates::lemma_bits_of_from_bits((row * 32 + c.spec_column()) as u8);
}

} // verus!
