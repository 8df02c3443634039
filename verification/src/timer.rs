use vstd::prelude::*;

verus! {

/// The divider and the programmable timer.
#[derive(Debug)]
pub struct Timer {
    /// The free-running divider; the divider register is its upper byte.
    pub divider_register: u16,
    /// The timer counter register.
    pub timer_counter: u8,
    /// Ticks since the timer counter last moved.
    pub timer_ticks: u16,
    pub timer_modulo: u8,
    pub timer_enable: bool,
    /// Ticks per step of the timer counter.
    pub timer_clock: u16,
}

/// The timer period in ticks that the two clock-select bits of the timer
/// control register choose.
pub open spec fn timer_period(control: u8) -> u16 {
    if control & 0b0000_0011 == 0 {
        1024
    } else if control & 0b0000_0011 == 1 {
        16
    } else if control & 0b0000_0011 == 2 {
        64
    } else {
        256
    }
}

impl Timer {
    /// The timer at power-on: stopped, with the slowest clock selected.
    pub open spec fn power_on() -> Timer {
        Timer {
            divider_register: 0,
            timer_counter: 0,
            timer_ticks: 0,
            timer_modulo: 0,
            timer_enable: false,
            timer_clock: 1024,
        }
    }

    /// Whether the coming tick moves the timer counter.
    pub open spec fn counter_moves(self) -> bool {
        self.timer_enable && self.timer_ticks + 1 >= self.timer_clock
    }

    /// Whether the coming tick takes the timer counter past 255, which
    /// requests the timer interrupt.
    pub open spec fn overflows(self) -> bool {
        self.counter_moves() && self.timer_counter == 255
    }

    /// The timer one tick later. The divider counts modulo 65536. While the
    /// timer is enabled its counter moves once per period, modulo 256, and
    /// on passing 255 it reloads from the modulo register.
    pub open spec fn stepped(self) -> Timer {
        Timer {
            divider_register: if self.divider_register == 0xFFFF {
                0
            } else {
                (self.divider_register + 1) as u16
            },
            timer_ticks: if !self.timer_enable {
                self.timer_ticks
            } else if self.counter_moves() {
                0
            } else {
                (self.timer_ticks + 1) as u16
            },
            timer_counter: if !self.counter_moves() {
                self.timer_counter
            } else if self.timer_counter == 255 {
                self.timer_modulo
            } else {
                (self.timer_counter + 1) as u8
            },
            ..self
        }
    }

    /// The timer after `data` was written to the control register: bit 2
    /// enables it, bits 0 and 1 select the period.
    pub open spec fn controlled(self, data: u8) -> Timer {
        Timer {
            timer_enable: data & 0b0000_0100 == 0b0000_0100,
            timer_clock: timer_period(data),
            ..self
        }
    }

    /// Whether `address` is the divider, the counter or the modulo register.
    pub open spec fn owns(address: u16) -> bool {
        0xFF04 <= address <= 0xFF06
    }

    /// What a read of one of the three registers yields: the upper byte of
    /// the divider, the counter, or the modulo.
    pub open spec fn load(self, address: u16) -> u8 {
        if address == 0xFF04 {
            (self.divider_register / 256) as u8
        } else if address == 0xFF05 {
            self.timer_counter
        } else {
            self.timer_modulo
        }
    }

    /// The timer after `data` was written to one of the three registers. A
    /// write to the divider clears it whatever the value; a write to the
    /// counter also starts its period anew.
    pub open spec fn stored(self, address: u16, data: u8) -> Timer {
        if address == 0xFF04 {
            Timer { divider_register: 0, ..self }
        } else if address == 0xFF05 {
            Timer { timer_counter: data, timer_ticks: 0, ..self }
        } else {
            Timer { timer_modulo: data, ..self }
        }
    }

    /// The timer as it is at power-on.
    pub fn new() -> (r: Timer)
        ensures
            r == Timer::power_on(),
    {
        Timer {
            divider_register: 0,
            timer_counter: 0,
            timer_ticks: 0,
            timer_modulo: 0,
            timer_enable: false,
            timer_clock: 1024,
        }
    }

    /// Advances the timer by one tick and tells whether the counter
    /// overflowed.
    pub fn step(&mut self) -> (overflow: bool)
        ensures
            *final(self) == old(self).stepped(),
            overflow == old(self).overflows(),
    {
        if self.divider_register == 0xFFFF {
            self.divider_register = 0;
        } else {
            self.divider_register += 1;
        }
        if !self.timer_enable {
            false
        } else if (self.timer_ticks as u32) + 1 < self.timer_clock as u32 {
            self.timer_ticks += 1;
            false
        } else if self.timer_counter == 255 {
            self.timer_ticks = 0;
            self.timer_counter = self.timer_modulo;
            true
        } else {
            self.timer_ticks = 0;
            self.timer_counter += 1;
            false
        }
    }

    /// Reads the divider, the counter or the modulo register.
    pub fn read(&self, address: u16) -> (val: u8)
        requires
            Self::owns(address),
        ensures
            val == self.load(address),
    {
        if address == 0xFF04 {
            (self.divider_register / 256) as u8
        } else if address == 0xFF05 {
            self.timer_counter
        } else {
            self.timer_modulo
        }
    }

    /// Takes a write to the divider, the counter or the modulo register.
    pub fn write(&mut self, address: u16, data: u8)
        requires
            Self::owns(address),
        ensures
            *final(self) == old(self).stored(address, data),
    {
        if address == 0xFF04 {
            self.divider_register = 0;
        } else if address == 0xFF05 {
            self.timer_counter = data;
            self.timer_ticks = 0;
        } else {
            self.timer_modulo = data;
        }
    }

    /// Takes a write to the timer control register.
    pub fn set_control(&mut self, data: u8)
        ensures
            *final(self) == old(self).controlled(data),
    {
        self.timer_enable = data & 0b0000_0100 == 0b0000_0100;
        let clock_select: u8 = data & 0b0000_0011;
        self.timer_clock = if clock_select == 0 {
            1024
        } else if clock_select == 1 {
            16
        } else if clock_select == 2 {
            64
        } else {
            256
        };
    }
}

} // verus!
