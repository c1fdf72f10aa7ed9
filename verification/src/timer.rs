//! The DIV/TIMA timer. An internal 16-bit counter DIV advances on every
//! T-cycle; when enabled, TIMA advances whenever the DIV bit selected by TAC
//! falls, and an increment past $FF reloads TIMA from TMA and requests the
//! TIMER interrupt.

use vstd::prelude::*;

verus! {

use crate::context::InterruptType;

/// Timer state: DIV ($FF04 reads its high byte), TIMA ($FF05), TMA ($FF06)
/// and TAC ($FF07: bit 2 enables, bits 1..0 select the DIV bit watched).
#[derive(Clone, Copy, Debug, PartialEq, Eq, Structural)]
pub struct Timer {
    pub div: u16,
    pub tima: u8,
    pub tma: u8,
    pub tac: u8,
}

impl Timer {
    /// Whether TAC bit 2 enables the timer.
    pub open spec fn spec_enabled(self) -> bool {
        (self.tac & 0b111) >> 2 == 1
    }

    /// How far DIV is shifted before edge comparison; the TAC select bits
    /// choose DIV bit 9, 3, 5 or 7, so a TIMA tick comes every 1024, 16, 64
    /// or 256 DIV steps.
    pub open spec fn spec_shift(self) -> u16 {
        if self.tac & 0b11 == 0b00 {
            10
        } else if self.tac & 0b11 == 0b01 {
            4
        } else if self.tac & 0b11 == 0b10 {
            6
        } else {
            8
        }
    }

    /// Whether the coming DIV step makes the selected bit fall, advancing
    /// TIMA.
    pub open spec fn spec_tima_advances(self) -> bool {
        &&& self.spec_enabled()
        &&& (vstd::wrapping::u16_specs::wrapping_add(self.div, 1) >> self.spec_shift()) != (
        self.div >> self.spec_shift())
    }

    /// Whether the coming DIV step overflows TIMA past $FF, reloading it from
    /// TMA and requesting the TIMER interrupt.
    pub open spec fn spec_tick_fires(self) -> bool {
        self.spec_tima_advances() && self.tima == 0xFF
    }

    /// The timer after one DIV step.
    pub open spec fn spec_tick(self) -> Timer {
        let div2 = vstd::wrapping::u16_specs::wrapping_add(self.div, 1);
        if !self.spec_tima_advances() {
            Timer { div: div2, ..self }
        } else if self.tima == 0xFF {
            Timer { div: div2, tima: self.tma, ..self }
        } else {
            Timer { div: div2, tima: (self.tima + 1) as u8, ..self }
        }
    }

    /// Post-boot state: DIV mid-count at $AC00, TIMA/TMA/TAC clear.
    pub fn new() -> (r: Self)
        ensures
            r == (Timer { div: 0xAC00, tima: 0, tma: 0, tac: 0 }),
    {
        Self { div: 0xAC00, tima: 0, tma: 0, tac: 0 }
    }

    /// One T-cycle: DIV advances (wrapping), TIMA advances on a falling edge
    /// of the selected DIV bit, and an overflow past $FF reloads TMA and
    /// reports the TIMER interrupt request.
    pub fn timer_tick(&mut self) -> (r: Option<InterruptType>)
        ensures
            *final(self) == old(self).spec_tick(),
            r == if old(self).spec_tick_fires() {
                Option::Some(InterruptType::TIMER)
            } else {
                Option::<InterruptType>::None
            },
    {
        let prev_div = self.div;
        self.div = self.div.wrapping_add(1);

        let tac = self.tac & 0b111;
        let timer_enabled = tac >> 2 == 1;
        if !timer_enabled {
            return Option::None;
        }

        let select = self.tac & 0b11;
        let bit_shift_count: u16 = if select == 0b00 {
            10
        } else if select == 0b01 {
            4
        } else if select == 0b10 {
            6
        } else {
            8
        };

        let div_shifted = self.div >> bit_shift_count;
        let previous_div_shifted = prev_div >> bit_shift_count;
        if div_shifted == previous_div_shifted {
            return Option::None;
        }

        if self.tima == 0xFF {
            self.tima = self.tma;
            return Option::Some(InterruptType::TIMER);
        }
        self.tima = self.tima + 1;
        Option::None
    }

    /// What a read of one of $FF04..$FF07 returns: DIV's high byte, TIMA,
    /// TMA or TAC.
    pub open spec fn spec_read(self, address: u16) -> u8 {
        if address == 0xFF04 {
            (self.div >> 8) as u8
        } else if address == 0xFF05 {
            self.tima
        } else if address == 0xFF06 {
            self.tma
        } else {
            self.tac
        }
    }

    pub fn timer_read(&self, address: u16) -> (r: u8)
        requires
            0xFF04 <= address <= 0xFF07,
        ensures
            r == self.spec_read(address),
    {
        if address == 0xFF04 {
            (self.div >> 8) as u8
        } else if address == 0xFF05 {
            self.tima
        } else if address == 0xFF06 {
            self.tma
        } else {
            self.tac
        }
    }

    /// The timer after a write to one of $FF04..$FF07: any write to $FF04
    /// resets DIV to zero; the others store the byte.
    pub open spec fn spec_write(self, address: u16, value: u8) -> Timer {
        if address == 0xFF04 {
            Timer { div: 0, ..self }
        } else if address == 0xFF05 {
            Timer { tima: value, ..self }
        } else if address == 0xFF06 {
            Timer { tma: value, ..self }
        } else {
            Timer { tac: value, ..self }
        }
    }

    pub fn timer_write(&mut self, address: u16, value: u8)
        requires
            0xFF04 <= address <= 0xFF07,
        ensures
            *final(self) == old(self).spec_write(address, value),
    {
        if address == 0xFF04 {
            self.div = 0;
        } else if address == 0xFF05 {
            self.tima = value;
        } else if address == 0xFF06 {
            self.tma = value;
        } else {
            self.tac = value;
        }
    }
}

/// A TIMA at $FF that advances once is reloaded from TMA, and the tick
/// reports the TIMER interrupt request.
pub proof fn lemma_tima_overflow_reloads(t: Timer)
    requires
        t.tima == 0xFF,
        t.spec_tima_advances(),
    ensures
        t.spec_tick().tima == t.tma,
        t.spec_tick_fires(),
{
}

} // verus!
