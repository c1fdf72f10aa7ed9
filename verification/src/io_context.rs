//! The I/O register block at $FF00..$FF7F, as far as the core implements it:
//! the serial port, the timer, and the interrupt-flag register IF ($FF0F).
//! Every other register in the block reads as zero and drops writes.

use vstd::prelude::*;

verus! {

use crate::serial::Serial;
use crate::timer::Timer;

#[derive(Clone, Copy, Debug, PartialEq, Eq, Structural)]
pub struct IO {
    pub serial: Serial,
    pub timer: Timer,
    pub interrupt_flag_register: u8,
}

impl IO {
    pub fn new() -> (r: Self)
        ensures
            r == (IO {
                serial: Serial { serial_transfer_data: 0, serial_transfer_control: 0 },
                timer: Timer { div: 0xAC00, tima: 0, tma: 0, tac: 0 },
                interrupt_flag_register: 0,
            }),
    {
        Self { serial: Serial::new(), timer: Timer::new(), interrupt_flag_register: 0 }
    }

    pub fn get_if_flag(&self) -> (r: u8)
        ensures
            r == self.interrupt_flag_register,
    {
        self.interrupt_flag_register
    }

    pub fn set_if_flag(&mut self, value: u8)
        ensures
            *final(self) == (IO { interrupt_flag_register: value, ..*old(self) }),
    {
        self.interrupt_flag_register = value;
    }

    /// What a read of an address in $FF00..$FF7F returns: the serial
    /// registers, the timer registers, IF, and zero anywhere else.
    pub open spec fn spec_read(self, address: u16) -> u8 {
        if address == 0xFF01 || address == 0xFF02 {
            self.serial.spec_read(address)
        } else if 0xFF04 <= address && address <= 0xFF07 {
            self.timer.spec_read(address)
        } else if address == 0xFF0F {
            self.interrupt_flag_register
        } else {
            0
        }
    }

    pub fn io_read(&self, address: u16) -> (r: u8)
        ensures
            r == self.spec_read(address),
    {
        if address == 0xFF01 || address == 0xFF02 {
            self.serial.io_read(address)
        } else if 0xFF04 <= address && address <= 0xFF07 {
            self.timer.timer_read(address)
        } else if address == 0xFF0F {
            self.get_if_flag()
        } else {
            0
        }
    }

    /// The block after a write: the serial registers, the timer registers
    /// and IF take the byte; writes anywhere else are dropped.
    pub open spec fn spec_write(self, address: u16, value: u8) -> IO {
        if address == 0xFF01 || address == 0xFF02 {
            IO { serial: self.serial.spec_write(address, value), ..self }
        } else if 0xFF04 <= address && address <= 0xFF07 {
            IO { timer: self.timer.spec_write(address, value), ..self }
        } else if address == 0xFF0F {
            IO { interrupt_flag_register: value, ..self }
        } else {
            self
        }
    }

    pub fn io_write(&mut self, address: u16, value: u8)
        ensures
            *final(self) == old(self).spec_write(address, value),
    {
        if address == 0xFF01 || address == 0xFF02 {
            self.serial.io_write(address, value);
        } else if 0xFF04 <= address && address <= 0xFF07 {
            self.timer.timer_write(address, value);
        } else if address == 0xFF0F {
            self.set_if_flag(value);
        }
    }
}

} // verus!
