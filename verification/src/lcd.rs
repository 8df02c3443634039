use vstd::prelude::*;

verus! {

/// The scanline counter with the LCD status, scroll and window registers.
#[derive(Debug)]
pub struct Lcd {
    /// Ticks into the current scanline.
    pub time: u16,
    /// The current scanline.
    pub ly: u8,
    pub scy: u8,
    pub scx: u8,
    pub wy: u8,
    pub wx: u8,
    pub lcd_stat: u8,
    /// Raised when the counter returns to line 0; the renderer lowers it.
    pub frame_happened: bool,
}

impl Lcd {
    /// The counter at power-on: line 0, tick 0, mode 1.
    pub open spec fn power_on() -> Lcd {
        Lcd {
            time: 0,
            ly: 0,
            scy: 0,
            scx: 0,
            wy: 0,
            wx: 0,
            lcd_stat: 1,
            frame_happened: false,
        }
    }

    /// The counters are within their periods: the tick below 456, the line
    /// below 154.
    pub open spec fn in_range(self) -> bool {
        self.time < 456 && self.ly < 154
    }

    /// Whether the coming tick enters line 144, which requests the
    /// vertical-blank interrupt.
    pub open spec fn enters_vblank(self) -> bool {
        self.time >= 455 && self.ly == 143
    }

    /// The counter one tick later, the status register left aside. A line
    /// lasts 456 ticks; after line 153 the counter returns to line 0 and
    /// raises the frame signal.
    pub open spec fn advanced(self) -> Lcd {
        if self.time < 455 {
            Lcd { time: (self.time + 1) as u16, ..self }
        } else if self.ly >= 153 {
            Lcd { time: 0, ly: 0, frame_happened: true, ..self }
        } else {
            Lcd { time: 0, ly: (self.ly + 1) as u8, ..self }
        }
    }

    /// The mode bits of the status register follow the counter: mode 1
    /// during lines 144 to 153; on the other lines mode 2 from tick 0,
    /// mode 3 from tick 81 and mode 0 from tick 311.
    pub open spec fn stat_updated(self) -> Lcd {
        if self.ly >= 144 {
            Lcd { lcd_stat: (self.lcd_stat & 0b1111_1100) | 1, ..self }
        } else if self.time == 0 {
            Lcd { lcd_stat: (self.lcd_stat & 0b1111_1100) | 2, ..self }
        } else if self.time == 81 {
            Lcd { lcd_stat: (self.lcd_stat & 0b1111_1100) | 3, ..self }
        } else if self.time == 311 {
            Lcd { lcd_stat: self.lcd_stat & 0b1111_1100, ..self }
        } else {
            self
        }
    }

    /// The counter one tick later.
    pub open spec fn stepped(self) -> Lcd {
        self.advanced().stat_updated()
    }

    /// Whether `address` is one of the registers kept here: status, scroll
    /// Y and X, scanline, window Y and X.
    pub open spec fn owns(address: u16) -> bool {
        0xFF41 <= address <= 0xFF44 || address == 0xFF4A || address == 0xFF4B
    }

    /// What a read of one of the registers yields.
    pub open spec fn load(self, address: u16) -> u8 {
        if address == 0xFF41 {
            self.lcd_stat
        } else if address == 0xFF42 {
            self.scy
        } else if address == 0xFF43 {
            self.scx
        } else if address == 0xFF44 {
            self.ly
        } else if address == 0xFF4A {
            self.wy
        } else {
            self.wx
        }
    }

    /// The registers after `data` was written to one of them. The status
    /// and the scanline register cannot be written.
    pub open spec fn stored(self, address: u16, data: u8) -> Lcd {
        if address == 0xFF42 {
            Lcd { scy: data, ..self }
        } else if address == 0xFF43 {
            Lcd { scx: data, ..self }
        } else if address == 0xFF4A {
            Lcd { wy: data, ..self }
        } else if address == 0xFF4B {
            Lcd { wx: data, ..self }
        } else {
            self
        }
    }

    /// The scanline counter as it is at power-on.
    pub fn new() -> (r: Lcd)
        ensures
            r == Lcd::power_on(),
    {
        Lcd { time: 0, ly: 0, scy: 0, scx: 0, wy: 0, wx: 0, lcd_stat: 1, frame_happened: false }
    }

    /// Reads one of the registers.
    pub fn read(&self, address: u16) -> (val: u8)
        requires
            Self::owns(address),
        ensures
            val == self.load(address),
    {
        if address == 0xFF41 {
            self.lcd_stat
        } else if address == 0xFF42 {
            self.scy
        } else if address == 0xFF43 {
            self.scx
        } else if address == 0xFF44 {
            self.ly
        } else if address == 0xFF4A {
            self.wy
        } else {
            self.wx
        }
    }

    /// Takes a write to one of the registers.
    pub fn write(&mut self, address: u16, data: u8)
        requires
            Self::owns(address),
        ensures
            *final(self) == old(self).stored(address, data),
    {
        if address == 0xFF42 {
            self.scy = data;
        } else if address == 0xFF43 {
            self.scx = data;
        } else if address == 0xFF4A {
            self.wy = data;
        } else if address == 0xFF4B {
            self.wx = data;
        }
    }

    /// Advances the counter by one tick and tells whether it entered the
    /// vertical blank.
    pub fn step(&mut self) -> (vblank: bool)
        ensures
            *final(self) == old(self).stepped(),
            vblank == old(self).enters_vblank(),
            old(self).in_range() ==> final(self).in_range(),
    {
        let mut vblank = false;
        if self.time < 455 {
            self.time += 1;
        } else if self.ly >= 153 {
            self.time = 0;
            self.ly = 0;
            self.frame_happened = true;
        } else {
            self.time = 0;
            self.ly += 1;
            vblank = self.ly == 144;
        }

        if self.ly >= 144 {
            self.lcd_stat = (self.lcd_stat & 0b1111_1100) | 1;
        } else if self.time == 0 {
            self.lcd_stat = (self.lcd_stat & 0b1111_1100) | 2;
        } else if self.time == 81 {
            self.lcd_stat = (self.lcd_stat & 0b1111_1100) | 3;
        } else if self.time == 311 {
            self.lcd_stat = self.lcd_stat & 0b1111_1100;
        }
        vblank
    }
}

} // verus!
