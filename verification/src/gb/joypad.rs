//! The joypad register P1 (0xFF00): two select lines choose the button or direction keys,
//! and the low nibble reads the chosen keys, 0 meaning pressed.

use vstd::prelude::*;
use crate::bits;
use crate::bits::{bit_spec, test_spec};

verus! {

/// A Game Boy key.
#[derive(Debug, Clone, Copy, PartialEq, Eq, Structural)]
pub enum Key {
    A,
    B,
    Select,
    Start,
    Up,
    Down,
    Left,
    Right,
}

pub struct Joypad {
    /// [FF00] Bit 5 - P15 Select Button Keys (0=Select)
    sel_button: bool,
    /// [FF00] Bit 4 - P14 Select Direction Keys (0=Select)
    sel_direction: bool,
    /// [FF00] Bit 3 - P13 Input Down or Start (0=Pressed)
    st_down: bool,
    st_start: bool,
    /// [FF00] Bit 2 - P12 Input Up or Select (0=Pressed)
    st_up: bool,
    st_sel: bool,
    /// [FF00] Bit 1 - P11 Input Left or Button B (0=Pressed)
    st_left: bool,
    st_b: bool,
    /// [FF00] Bit 0 - P10 Input Right or Button A (0=Pressed)
    st_right: bool,
    st_a: bool,
}

/// The joypad as values: the two select lines and whether each key is held.
#[derive(Clone, Copy, PartialEq, Eq, Structural)]
pub struct JoypadView {
    pub sel_button: bool,
    pub sel_direction: bool,
    pub st_down: bool,
    pub st_start: bool,
    pub st_up: bool,
    pub st_sel: bool,
    pub st_left: bool,
    pub st_b: bool,
    pub st_right: bool,
    pub st_a: bool,
}

impl View for Joypad {
    type V = JoypadView;

    closed spec fn view(&self) -> JoypadView {
        JoypadView {
            sel_button: self.sel_button,
            sel_direction: self.sel_direction,
            st_down: self.st_down,
            st_start: self.st_start,
            st_up: self.st_up,
            st_sel: self.st_sel,
            st_left: self.st_left,
            st_b: self.st_b,
            st_right: self.st_right,
            st_a: self.st_a,
        }
    }
}

impl JoypadView {
    /// P1 (0xFF00): bits 7-6 read 1, bits 5-4 the select lines (0 = selected), bits 3-0
    /// low when a key of a selected group is held.
    pub open spec fn p1(self) -> u8 {
        0xC0 | bit_spec(!self.sel_button, 5) | bit_spec(!self.sel_direction, 4) | bit_spec(
            !((self.sel_direction && self.st_down) || (self.sel_button && self.st_start)),
            3,
        ) | bit_spec(!((self.sel_direction && self.st_up) || (self.sel_button && self.st_sel)), 2)
            | bit_spec(!((self.sel_direction && self.st_left) || (self.sel_button && self.st_b)), 1)
            | bit_spec(!((self.sel_direction && self.st_right) || (self.sel_button && self.st_a)), 0)
    }

    /// The value a read of `address` returns: P1, or 0xFF elsewhere.
    pub open spec fn read_spec(self, address: u16) -> u8 {
        if address == 0xFF00 { self.p1() } else { 0xFF }
    }

    /// The state after a write: P1 sets the select lines (bits 5 and 4, 0 = select).
    pub open spec fn written(self, address: u16, value: u8) -> Self {
        if address == 0xFF00 {
            JoypadView { sel_button: !test_spec(value, 5), sel_direction: !test_spec(value, 4), ..self }
        } else {
            self
        }
    }

    /// The state with `key` held (or released).
    pub open spec fn keyed(self, key: Key, pressed: bool) -> Self {
        match key {
            Key::A => JoypadView { st_a: pressed, ..self },
            Key::B => JoypadView { st_b: pressed, ..self },
            Key::Select => JoypadView { st_sel: pressed, ..self },
            Key::Start => JoypadView { st_start: pressed, ..self },
            Key::Up => JoypadView { st_up: pressed, ..self },
            Key::Down => JoypadView { st_down: pressed, ..self },
            Key::Left => JoypadView { st_left: pressed, ..self },
            Key::Right => JoypadView { st_right: pressed, ..self },
        }
    }
}

impl Joypad {
    /// Reset: both key groups selected.
    pub fn reset(&mut self)
        ensures
            final(self)@ == (JoypadView { sel_button: true, sel_direction: true, ..old(self)@ }),
    {
        self.sel_button = true;
        self.sel_direction = true;
    }

    /// Read
    pub fn read(&mut self, address: u16) -> (r: u8)
        ensures
            r == old(self)@.read_spec(address),
            final(self)@ == old(self)@,
    {
        if address == 0xFF00 {
            0xC0 | bits::bit(!self.sel_button, 5) | bits::bit(!self.sel_direction, 4) | bits::bit(
                !((self.sel_direction && self.st_down) || (self.sel_button && self.st_start)),
                3,
            ) | bits::bit(!((self.sel_direction && self.st_up) || (self.sel_button && self.st_sel)), 2)
                | bits::bit(!((self.sel_direction && self.st_left) || (self.sel_button && self.st_b)), 1)
                | bits::bit(!((self.sel_direction && self.st_right) || (self.sel_button && self.st_a)), 0)
        } else {
            0xFF
        }
    }

    /// Write
    pub fn write(&mut self, address: u16, value: u8)
        ensures
            final(self)@ == old(self)@.written(address, value),
    {
        if address == 0xFF00 {
            self.sel_button = !bits::test(value, 5);
            self.sel_direction = !bits::test(value, 4);
        }
    }

    fn on_key(&mut self, key: Key, pressed: bool)
        ensures
            final(self)@ == old(self)@.keyed(key, pressed),
    {
        match key {
            Key::A => self.st_a = pressed,
            Key::B => self.st_b = pressed,
            Key::Select => self.st_sel = pressed,
            Key::Start => self.st_start = pressed,
            Key::Up => self.st_up = pressed,
            Key::Down => self.st_down = pressed,
            Key::Left => self.st_left = pressed,
            Key::Right => self.st_right = pressed,
        }
    }

    /// A key goes down.
    pub fn on_key_down(&mut self, key: Key)
        ensures
            final(self)@ == old(self)@.keyed(key, true),
    {
        self.on_key(key, true);
    }

    /// A key comes up.
    pub fn on_key_up(&mut self, key: Key)
        ensures
            final(self)@ == old(self)@.keyed(key, false),
    {
        self.on_key(key, false);
    }
}

impl Default for Joypad {
    fn default() -> (j: Joypad)
        ensures
            j@ == (JoypadView {
                sel_button: false,
                sel_direction: false,
                st_down: false,
                st_start: false,
                st_up: false,
                st_sel: false,
                st_left: false,
                st_b: false,
                st_right: false,
                st_a: false,
            }),
    {
        Joypad {
            sel_button: false,
            sel_direction: false,
            st_down: false,
            st_start: false,
            st_up: false,
            st_sel: false,
            st_left: false,
            st_b: false,
            st_right: false,
            st_a: false,
        }
    }
}

/// With only the button keys selected, a held A reads as bit 0 clear and a released A as
/// bit 0 set.
pub proof fn law_button_a_reads(j: JoypadView, pressed: bool)
    requires
        j.sel_button,
        !j.sel_direction,
    ensures
        test_spec(j.keyed(Key::A, pressed).p1(), 0) == !pressed,
{
    let k = j.keyed(Key::A, pressed);
    let f5 = !k.sel_button;
    let f4 = !k.sel_direction;
    let f3 = !((k.sel_direction && k.st_down) || (k.sel_button && k.st_start));
    let f2 = !((k.sel_direction && k.st_up) || (k.sel_button && k.st_sel));
    let f1 = !((k.sel_direction && k.st_left) || (k.sel_button && k.st_b));
    let f0 = !((k.sel_direction && k.st_right) || (k.sel_button && k.st_a));
    assert(test_spec(
        0xC0u8 | bit_spec(f5, 5) | bit_spec(f4, 4) | bit_spec(f3, 3) | bit_spec(f2, 2) | bit_spec(f1, 1)
            | bit_spec(f0, 0),
        0,
    ) == f0) by (bit_vector);
}

} // verus!
