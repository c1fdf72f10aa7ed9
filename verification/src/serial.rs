//! The serial port registers SB ($FF01) and SC ($FF02). Test ROMs print by
//! writing a byte to SB and $81 to SC; the bus watches SC and captures the
//! byte into its debug buffer.

use vstd::prelude::*;

verus! {

#[derive(Clone, Copy, Debug, PartialEq, Eq, Structural)]
pub struct Serial {
    pub serial_transfer_data: u8,
    pub serial_transfer_control: u8,
}

impl Serial {
    pub fn new() -> (r: Self)
        ensures
            r == (Serial { serial_transfer_data: 0, serial_transfer_control: 0 }),
    {
        Self { serial_transfer_data: 0, serial_transfer_control: 0 }
    }

    /// What a read of $FF01 or $FF02 returns.
    pub open spec fn spec_read(self, address: u16) -> u8 {
        if address == 0xFF01 {
            self.serial_transfer_data
        } else {
            self.serial_transfer_control
        }
    }

    pub fn io_read(&self, address: u16) -> (r: u8)
        requires
            address == 0xFF01 || address == 0xFF02,
        ensures
            r == self.spec_read(address),
    {
        if address == 0xFF01 {
            self.serial_transfer_data
        } else {
            self.serial_transfer_control
        }
    }

    /// The port after a write to $FF01 or $FF02.
    pub open spec fn spec_write(self, address: u16, value: u8) -> Serial {
        if address == 0xFF01 {
            Serial { serial_transfer_data: value, ..self }
        } else {
            Serial { serial_transfer_control: value, ..self }
        }
    }

    pub fn io_write(&mut self, address: u16, value: u8)
        requires
            address == 0xFF01 || address == 0xFF02,
        ensures
            *final(self) == old(self).spec_write(address, value),
    {
        if address == 0xFF01 {
            self.serial_transfer_data = value;
        } else {
            self.serial_transfer_control = value;
        }
    }
}

} // verus!
