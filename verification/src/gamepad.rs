//! The controller as the pipeline sees it: edge and level queries over the
//! report pair, fed by device reads or by emulated keys.

use crate::registry::{key_info, registry, REPORT_LEN};
pub use crate::registry::{Button, KeyInfo};
use crate::report::{
    delivered, lemma_set_changes_one_bit, lemma_set_touches_one_button,
    lemma_unset_touches_one_button, raised_one_bit, ReportPair, Reports,
};
use vstd::prelude::*;

verus! {

/// Identity of a key of the host keyboard.
#[derive(Clone, Copy, Debug, PartialEq, Eq, Hash, Structural)]
pub enum KeyCode {
    A,
    B,
    C,
    D,
    E,
    F,
    G,
    H,
    I,
    J,
    K,
    L,
    M,
    N,
    O,
    P,
    Q,
    R,
    S,
    T,
    U,
    V,
    W,
    X,
    Y,
    Z,
    /// Any key that is not a letter.
    Other,
}

/// The button that a key stands for, if it stands for one.
pub open spec fn key_map(key_code: KeyCode) -> Option<Button> {
    match key_code {
        KeyCode::W => Some(Button::UP),
        KeyCode::A => Some(Button::LEFT),
        KeyCode::S => Some(Button::DOWN),
        KeyCode::D => Some(Button::RIGHT),
        KeyCode::Q => Some(Button::LT),
        KeyCode::E => Some(Button::LB),
        KeyCode::I => Some(Button::Y),
        KeyCode::J => Some(Button::X),
        KeyCode::K => Some(Button::A),
        KeyCode::L => Some(Button::B),
        KeyCode::U => Some(Button::RB),
        KeyCode::O => Some(Button::RT),
        _ => None,
    }
}

/// Looks up the button that a key stands for.
pub fn key_button(key_code: &KeyCode) -> (button: Option<Button>)
    ensures
        button == key_map(*key_code),
{
    match key_code {
        KeyCode::W => Some(Button::UP),
        KeyCode::A => Some(Button::LEFT),
        KeyCode::S => Some(Button::DOWN),
        KeyCode::D => Some(Button::RIGHT),
        KeyCode::Q => Some(Button::LT),
        KeyCode::E => Some(Button::LB),
        KeyCode::I => Some(Button::Y),
        KeyCode::J => Some(Button::X),
        KeyCode::K => Some(Button::A),
        KeyCode::L => Some(Button::B),
        KeyCode::U => Some(Button::RB),
        KeyCode::O => Some(Button::RT),
        _ => None,
    }
}

/// Every button has a key, and no two keys stand for the same button.
pub proof fn lemma_key_map_one_to_one(button: Button, key1: KeyCode, key2: KeyCode)
    ensures
        exists|key_code: KeyCode| key_map(key_code) == Some(button),
        key_map(key1) == Some(button) && key_map(key2) == Some(button) ==> key1 == key2,
{
    let key_code = match button {
        Button::UP => KeyCode::W,
        Button::LEFT => KeyCode::A,
        Button::DOWN => KeyCode::S,
        Button::RIGHT => KeyCode::D,
        Button::LT => KeyCode::Q,
        Button::LB => KeyCode::E,
        Button::Y => KeyCode::I,
        Button::X => KeyCode::J,
        Button::A => KeyCode::K,
        Button::B => KeyCode::L,
        Button::RB => KeyCode::U,
        Button::RT => KeyCode::O,
    };
    assert(key_map(key_code) == Some(button));
}

/// Raises the bits of `key_info` in `now_buf`.
pub fn _set_buf(key_info: &KeyInfo, now_buf: &mut [u8; REPORT_LEN])
    requires
        key_info.in_range(),
    ensures
        final(now_buf)@ == key_info.raised_in(old(now_buf)@),
{
    key_info.set_buf(now_buf);
}

/// Clears the bits of `key_info` in `now_buf`.
pub fn _unset_buf(key_info: &KeyInfo, now_buf: &mut [u8; REPORT_LEN])
    requires
        key_info.in_range(),
    ensures
        final(now_buf)@ == key_info.cleared_in(old(now_buf)@),
{
    key_info.unset_buf(now_buf);
}

/// Rising edge: up in `prev_buf` and down in `now_buf`.
pub fn _is_pressed(
    key_info: &KeyInfo,
    now_buf: &[u8; REPORT_LEN],
    prev_buf: &[u8; REPORT_LEN],
) -> (pressed: bool)
    requires
        key_info.in_range(),
    ensures
        pressed == (!key_info.held_in(prev_buf@) && key_info.held_in(now_buf@)),
{
    !key_info.is_pushed(prev_buf) && key_info.is_pushed(now_buf)
}

/// Level: down in `now_buf`, whatever `_prev_buf` holds.
pub fn _is_pushed(
    key_info: &KeyInfo,
    now_buf: &[u8; REPORT_LEN],
    _prev_buf: &[u8; REPORT_LEN],
) -> (pushed: bool)
    requires
        key_info.in_range(),
    ensures
        pushed == key_info.held_in(now_buf@),
{
    key_info.is_pushed(now_buf)
}

/// What the pipeline knows of a controller.
pub struct GamepadView {
    /// A physical device was found when the controller was set up.
    pub connected: bool,
    /// The two reports held.
    pub reports: Reports,
}

impl GamepadView {
    /// The controller after one read. Without a device a read does nothing.
    pub open spec fn after_read(self, report: Option<Seq<u8>>) -> GamepadView {
        if self.connected {
            GamepadView { connected: true, reports: self.reports.after_read(report) }
        } else {
            self
        }
    }

    /// The controller after the key was pressed. A key that stands for no
    /// button does nothing.
    pub open spec fn after_set_key(self, key_code: KeyCode) -> GamepadView {
        match key_map(key_code) {
            Some(button) => GamepadView {
                connected: self.connected,
                reports: self.reports.after_set(registry(button)),
            },
            None => self,
        }
    }

    /// The controller after the key was released. A key that stands for no
    /// button does nothing.
    pub open spec fn after_unset_key(self, key_code: KeyCode) -> GamepadView {
        match key_map(key_code) {
            Some(button) => GamepadView {
                connected: self.connected,
                reports: self.reports.after_unset(registry(button)),
            },
            None => self,
        }
    }
}

/// A key that stands for a button changes one bit when it is pressed: in
/// the byte with the button's bit that bit goes up and the others stay as the
/// report that was current had them, the other button byte is repeated, and
/// that report is now the previous one. A key that stands for no button
/// changes nothing.
pub proof fn lemma_set_key_changes_one_bit(pad: GamepadView, key_code: KeyCode)
    requires
        pad.reports.wf(),
    ensures
        pad.after_set_key(key_code).connected == pad.connected,
        key_map(key_code) is None ==> pad.after_set_key(key_code) == pad,
        key_map(key_code) matches Some(button) ==> raised_one_bit(
            pad.reports.current,
            pad.after_set_key(key_code).reports.current,
            registry(button),
        ),
        key_map(key_code) is Some ==> pad.after_set_key(key_code).reports.previous
            == pad.reports.current,
{
    if let Some(button) = key_map(key_code) {
        lemma_set_changes_one_bit(pad.reports, button);
    }
}

/// A key that stands for a button changes what that button reads and what
/// no other button reads: after a press the button is held, after a release
/// it is not.
pub proof fn lemma_keys_touch_one_button(pad: GamepadView, key_code: KeyCode, other: Button)
    requires
        pad.reports.wf(),
        key_map(key_code) is Some,
    ensures
        pad.after_set_key(key_code).reports.pushed(key_map(key_code).unwrap()),
        !pad.after_unset_key(key_code).reports.pushed(key_map(key_code).unwrap()),
        Some(other) != key_map(key_code) ==> pad.after_set_key(key_code).reports.pushed(other)
            == pad.reports.pushed(other),
        Some(other) != key_map(key_code) ==> pad.after_unset_key(key_code).reports.pushed(other)
            == pad.reports.pushed(other),
{
    let button = key_map(key_code).unwrap();
    lemma_set_touches_one_button(pad.reports, button, other);
    lemma_unset_touches_one_button(pad.reports, button, other);
}

/// A controller: the report pair, and whether a physical device feeds it.
pub struct Gamepad {
    device: bool,
    pair: ReportPair,
}

impl View for Gamepad {
    type V = GamepadView;

    closed spec fn view(&self) -> GamepadView {
        GamepadView { connected: self.device, reports: self.pair@ }
    }
}

impl Gamepad {
    /// A controller with two blank reports. `device_found` tells whether a
    /// physical device was found and opened.
    pub fn new(device_found: bool) -> (gamepad: Gamepad)
        ensures
            gamepad@ == (GamepadView { connected: device_found, reports: Reports::blank() }),
    {
        Gamepad { device: device_found, pair: ReportPair::new() }
    }

    /// Both reports of a controller have the length of a report.
    pub proof fn lemma_wf(&self)
        ensures
            self@.reports.wf(),
    {
        self.pair.lemma_wf();
    }

    fn _check_button<F: Fn(&KeyInfo, &[u8; REPORT_LEN], &[u8; REPORT_LEN]) -> bool>(
        &self,
        button: &Button,
        checker_fn: F,
    ) -> (answer: bool)
        requires
            forall|now_buf: &[u8; REPORT_LEN], prev_buf: &[u8; REPORT_LEN]|
                call_requires(checker_fn, (&registry(*button), now_buf, prev_buf)),
        ensures
            exists|now_buf: &[u8; REPORT_LEN], prev_buf: &[u8; REPORT_LEN]|
                now_buf@ == self@.reports.current && prev_buf@ == self@.reports.previous
                    && call_ensures(checker_fn, (&registry(*button), now_buf, prev_buf), answer),
    {
        let key_info = key_info(button);
        let now_buf = self.pair.now_buf();
        let prev_buf = self.pair.prev_buf();
        checker_fn(&key_info, now_buf, prev_buf)
    }

    /// Tells whether `button` went down between the previous report and the
    /// current one.
    pub fn is_pressed(&self, button: &Button) -> (pressed: bool)
        ensures
            pressed == self@.reports.pressed(*button),
    {
        self._check_button(button, _is_pressed)
    }

    /// Tells whether `button` is down in the current report.
    pub fn is_pushed(&self, button: &Button) -> (pushed: bool)
        ensures
            pushed == self@.reports.pushed(*button),
    {
        self._check_button(button, _is_pushed)
    }

    /// Tells whether a physical device feeds the controller.
    pub fn has_device(&self) -> (connected: bool)
        ensures
            connected == self@.connected,
    {
        self.device
    }

    fn _update_key_buf<F: Fn(&KeyInfo, &mut [u8; REPORT_LEN])>(
        &mut self,
        key_code: KeyCode,
        update_fn: F,
    )
        requires
            forall|info: &KeyInfo, buf: &mut [u8; REPORT_LEN]|
                info.in_range() ==> call_requires(update_fn, (info, buf)),
        ensures
            final(self)@.connected == old(self)@.connected,
            key_map(key_code) is None ==> final(self)@ == old(self)@,
            key_map(key_code) is Some ==> final(self)@.reports.previous
                == old(self)@.reports.current,
            key_map(key_code) matches Some(button) ==> exists|buf: &mut [u8; REPORT_LEN]|
                buf@ == old(self)@.reports.carried()
                    && final(buf)@ == final(self)@.reports.current
                    && call_ensures(update_fn, (&registry(button), buf), ()),
    {
        let button = key_button(&key_code);
        if button.is_none() {
            return;
        }
        let key_info = key_info(&button.unwrap());
        self.pair.carry_forward();
        let new_buf = self.pair.now_buf_mut();
        update_fn(&key_info, new_buf);
    }

    /// Takes in a key press of the host keyboard: the bit of the key's
    /// button goes up in a new current report.
    pub fn set_key(&mut self, key_code: KeyCode)
        ensures
            final(self)@ == old(self)@.after_set_key(key_code),
    {
        self._update_key_buf(key_code, _set_buf);
    }

    /// Takes in a key release of the host keyboard: the bit of the key's
    /// button goes down in a new current report.
    pub fn unset_key(&mut self, key_code: KeyCode)
        ensures
            final(self)@ == old(self)@.after_unset_key(key_code),
    {
        self._update_key_buf(key_code, _unset_buf);
    }

    /// Takes in the outcome of one read of the device: the bytes that
    /// arrived, or `None` where the read failed. Without a device nothing
    /// changes.
    pub fn read(&mut self, report: Option<&[u8]>)
        ensures
            final(self)@ == old(self)@.after_read(delivered(report)),
    {
        if !self.device {
            return;
        }
        self.pair.read(report);
    }
}

} // verus!
