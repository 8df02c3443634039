use vstd::prelude::*;

verus! {

/// The group of buttons that the joypad register currently reports.
#[derive(Debug, Clone, Copy, PartialEq, Eq, Structural)]
pub enum ButtonType {
    Unselected,
    Action,
    Direction,
}

impl Default for ButtonType {
    fn default() -> (r: ButtonType)
        ensures
            r == ButtonType::Unselected,
    {
        ButtonType::Unselected
    }
}

/// A key of the host keyboard that is bound to a button of the console.
#[derive(Debug, Clone, Copy, PartialEq, Eq, Structural)]
pub enum Key {
    Down,
    Up,
    Left,
    Right,
    Return,
    RShift,
    LShift,
    A,
    S,
}

/// The state of the eight buttons, and the group selected for reading.
#[derive(Debug)]
pub struct Joypad {
    pub selected_buttons: ButtonType,
    pub down_pressed: bool,
    pub up_pressed: bool,
    pub left_pressed: bool,
    pub right_pressed: bool,
    pub start_pressed: bool,
    pub select_pressed: bool,
    pub b_pressed: bool,
    pub a_pressed: bool,
}

/// A button as its bit in the joypad register: the bit is clear while the
/// button is held down.
pub open spec fn released_bit(pressed: bool, weight: int) -> int {
    if pressed {
        0
    } else {
        weight
    }
}

impl Default for Joypad {
    fn default() -> (r: Joypad)
        ensures
            r == Joypad::released(ButtonType::Unselected),
    {
        Joypad {
            selected_buttons: ButtonType::Unselected,
            down_pressed: false,
            up_pressed: false,
            left_pressed: false,
            right_pressed: false,
            start_pressed: false,
            select_pressed: false,
            b_pressed: false,
            a_pressed: false,
        }
    }
}

impl Joypad {
    /// A joypad with no button held down and the given group selected.
    pub open spec fn released(selected: ButtonType) -> Joypad {
        Joypad {
            selected_buttons: selected,
            down_pressed: false,
            up_pressed: false,
            left_pressed: false,
            right_pressed: false,
            start_pressed: false,
            select_pressed: false,
            b_pressed: false,
            a_pressed: false,
        }
    }

    /// The joypad after the keyboard was sampled with `keys` held down. The
    /// selected group stays; each button is held exactly if one of its keys
    /// is among `keys`.
    pub open spec fn with_keys(self, keys: Seq<Key>) -> Joypad {
        Joypad {
            selected_buttons: self.selected_buttons,
            down_pressed: keys.contains(Key::Down),
            up_pressed: keys.contains(Key::Up),
            left_pressed: keys.contains(Key::Left),
            right_pressed: keys.contains(Key::Right),
            start_pressed: keys.contains(Key::Return),
            select_pressed: keys.contains(Key::RShift) || keys.contains(Key::LShift),
            b_pressed: keys.contains(Key::A),
            a_pressed: keys.contains(Key::S),
        }
    }

    /// The value of the joypad register. The upper nibble names the selected
    /// group, the lower nibble holds one bit per button of that group, clear
    /// while the button is held. With no group selected every bit is set.
    pub open spec fn register_value(self) -> int {
        match self.selected_buttons {
            ButtonType::Action => 0xD0 + released_bit(self.start_pressed, 8) + released_bit(
                self.select_pressed,
                4,
            ) + released_bit(self.b_pressed, 2) + released_bit(self.a_pressed, 1),
            ButtonType::Direction => 0xE0 + released_bit(self.down_pressed, 8) + released_bit(
                self.up_pressed,
                4,
            ) + released_bit(self.left_pressed, 2) + released_bit(self.right_pressed, 1),
            ButtonType::Unselected => 0xFF,
        }
    }

    /// Takes the keys that are held down and sets the buttons from them.
    pub fn set_inputs(&mut self, pressed_keys: &Vec<Key>)
        ensures
            *final(self) == old(self).with_keys(pressed_keys@),
    {
        self.reset_buttons();
        let mut i: usize = 0;
        while i < pressed_keys.len()
            invariant
                i <= pressed_keys.len(),
                *self == old(self).with_keys(pressed_keys@.take(i as int)),
            decreases pressed_keys.len() - i,
        {
            let ghost seen = pressed_keys@.take(i as int);
            let ghost next = pressed_keys@.take(i + 1);
            assert(next =~= seen.push(pressed_keys@[i as int]));
            assert forall|k: Key| next.contains(k) <==> (seen.contains(k) || k == pressed_keys@[
                i as int
            ]) by {
                if seen.contains(k) {
                    let j = choose|j: int| 0 <= j < seen.len() && seen[j] == k;
                    assert(next[j] == k);
                }
                if k == pressed_keys@[i as int] {
                    assert(next[i as int] == k);
                }
            }
            match pressed_keys[i] {
                Key::Down => self.down_pressed = true,
                Key::Up => self.up_pressed = true,
                Key::Left => self.left_pressed = true,
                Key::Right => self.right_pressed = true,
                Key::Return => self.start_pressed = true,
                Key::RShift => self.select_pressed = true,
                Key::LShift => self.select_pressed = true,
                Key::A => self.b_pressed = true,
                Key::S => self.a_pressed = true,
            }
            i += 1;
        }
        assert(pressed_keys@.take(i as int) =~= pressed_keys@);
    }

    /// The joypad register as the bus reads it.
    pub fn as_byte(&self) -> (r: u8)
        ensures
            r == self.register_value(),
    {
        match self.selected_buttons {
            ButtonType::Action => {
                0xD0 + Self::bit(self.start_pressed, 8) + Self::bit(self.select_pressed, 4)
                    + Self::bit(self.b_pressed, 2) + Self::bit(self.a_pressed, 1)
            },
            ButtonType::Direction => {
                0xE0 + Self::bit(self.down_pressed, 8) + Self::bit(self.up_pressed, 4) + Self::bit(
                    self.left_pressed,
                    2,
                ) + Self::bit(self.right_pressed, 1)
            },
            ButtonType::Unselected => 0xFF,
        }
    }

    fn bit(pressed: bool, weight: u8) -> (r: u8)
        ensures
            r == released_bit(pressed, weight as int),
    {
        if pressed {
            0
        } else {
            weight
        }
    }

    /// Releases every button; the selected group stays.
    pub fn reset_buttons(&mut self)
        ensures
            *final(self) == Joypad::released(old(self).selected_buttons),
    {
        self.down_pressed = false;
        self.up_pressed = false;
        self.left_pressed = false;
        self.right_pressed = false;
        self.start_pressed = false;
        self.select_pressed = false;
        self.b_pressed = false;
        self.a_pressed = false;
    }
}

} // verus!
