//! The general-purpose I/O ports of the ATmega2560 and their pins.
//!
//! Each port is a block of three one-byte registers at a fixed address. In
//! ascending order they are the toggle register (`PINx`), the direction
//! register (`DDRx`) and the output register (`PORTx`). Bit `n` of each
//! register belongs to pin `n` of the port.
//!
//! [`Port`] holds the state of one such block and answers register reads and
//! writes the way the silicon does; in particular a write to the toggle
//! register flips bits of the output register. [`Pin`] is one bit of a port.
//! The functions [`pin_mask`], [`mode_write`], [`high_toggles`] and
//! [`low_toggles`] decide what is written to which register, from the values
//! read; a driver for the memory-mapped registers makes the same decisions
//! through them.

use vstd::prelude::*;

verus! {

/// Offset of the toggle register from the base address of its port.
pub const PIN_OFFSET: usize = 0;

/// Offset of the direction register from the base address of its port.
pub const DDR_OFFSET: usize = 1;

/// Offset of the output register from the base address of its port.
pub const PORT_OFFSET: usize = 2;

/// The name of a port: A to L, without I.
#[derive(Clone, Copy, Debug, PartialEq, Eq, Structural)]
pub enum PortName {
    A,
    B,
    C,
    D,
    E,
    F,
    G,
    H,
    J,
    K,
    L,
}

/// The direction of a pin.
#[derive(Clone, Copy, Debug, PartialEq, Eq, Structural)]
pub enum IOMode {
    Input,
    Output,
}

/// The address of the first register of the port `name`.
pub open spec fn base_address(name: PortName) -> usize {
    match name {
        PortName::A => 0x20,
        PortName::B => 0x23,
        PortName::C => 0x26,
        PortName::D => 0x29,
        PortName::E => 0x2C,
        PortName::F => 0x2F,
        PortName::G => 0x32,
        PortName::H => 0x100,
        PortName::J => 0x103,
        PortName::K => 0x106,
        PortName::L => 0x109,
    }
}

/// The port whose registers start at `address`, if there is one.
pub open spec fn name_at(address: usize) -> Option<PortName> {
    if address == 0x20 {
        Some(PortName::A)
    } else if address == 0x23 {
        Some(PortName::B)
    } else if address == 0x26 {
        Some(PortName::C)
    } else if address == 0x29 {
        Some(PortName::D)
    } else if address == 0x2C {
        Some(PortName::E)
    } else if address == 0x2F {
        Some(PortName::F)
    } else if address == 0x32 {
        Some(PortName::G)
    } else if address == 0x100 {
        Some(PortName::H)
    } else if address == 0x103 {
        Some(PortName::J)
    } else if address == 0x106 {
        Some(PortName::K)
    } else if address == 0x109 {
        Some(PortName::L)
    } else {
        None
    }
}

/// The byte with only bit `index` set.
pub open spec fn spec_pin_mask(index: usize) -> u8 {
    1u8 << index
}

/// The direction register after pin `index` is given the direction `mode`:
/// its bit is set for an output and cleared for an input.
pub open spec fn spec_mode_write(ddr: u8, index: usize, mode: IOMode) -> u8 {
    match mode {
        IOMode::Input => ddr & !spec_pin_mask(index),
        IOMode::Output => ddr | spec_pin_mask(index),
    }
}

/// Whether `high` on pin `index` writes to the toggle register: the pin
/// exists, it is the only output of its port, and the output register is
/// zero.
pub open spec fn spec_high_toggles(port: u8, ddr: u8, index: usize) -> bool {
    index < 8 && port == 0 && ddr == spec_pin_mask(index)
}

/// Whether `low` on pin `index` writes to the toggle register: the pin
/// exists, it is the only output of its port, and the output register is
/// not zero.
pub open spec fn spec_low_toggles(port: u8, ddr: u8, index: usize) -> bool {
    index < 8 && port != 0 && ddr == spec_pin_mask(index)
}

/// The state of the registers of one port.
pub struct Registers {
    /// Address of the first register.
    pub address: usize,
    /// The direction register: a set bit makes its pin an output.
    pub ddr: u8,
    /// The output register: the level driven on an output pin, the pull-up
    /// of an input pin.
    pub port: u8,
}

impl Registers {
    /// The state after `value` is written to the direction register.
    pub open spec fn write_ddr(self, value: u8) -> Registers {
        Registers { ddr: value, ..self }
    }

    /// The state after `value` is written to the toggle register: every bit
    /// of the output register that is set in `value` flips, whatever the
    /// direction of its pin.
    pub open spec fn write_pin(self, value: u8) -> Registers {
        Registers { port: self.port ^ value, ..self }
    }

    /// The state after pin `index` is given the direction `mode`.
    pub open spec fn with_mode(self, index: usize, mode: IOMode) -> Registers {
        self.write_ddr(spec_mode_write(self.ddr, index, mode))
    }

    /// The state after pin `index` is toggled.
    pub open spec fn toggled(self, index: usize) -> Registers {
        self.write_pin(spec_pin_mask(index))
    }

    /// The state after `high` on pin `index`.
    pub open spec fn raised(self, index: usize) -> Registers {
        if spec_high_toggles(self.port, self.ddr, index) {
            self.toggled(index)
        } else {
            self
        }
    }

    /// The state after `low` on pin `index`.
    pub open spec fn lowered(self, index: usize) -> Registers {
        if spec_low_toggles(self.port, self.ddr, index) {
            self.toggled(index)
        } else {
            self
        }
    }
}

/// The registers of one port.
pub struct Port {
    address: usize,
    ddr: u8,
    port: u8,
}

/// One pin of a port: the port and the number of the pin's bit.
///
/// A pin made by [`Port::pin`] or [`Pin::new`] is well formed: its number is
/// below eight.
pub struct Pin<'a> {
    pub port: &'a mut Port,
    pub pin: usize,
}

/// The byte with only bit `index` set.
#[verifier::when_used_as_spec(spec_pin_mask)]
pub fn pin_mask(index: usize) -> (r: u8)
    requires
        index < 8,
    ensures
        r == spec_pin_mask(index),
{
    0x1 << index
}

/// The byte to write to the direction register, of which `ddr` was read, to
/// give pin `index` the direction `mode`.
#[verifier::when_used_as_spec(spec_mode_write)]
pub fn mode_write(ddr: u8, index: usize, mode: IOMode) -> (r: u8)
    requires
        index < 8,
    ensures
        r == spec_mode_write(ddr, index, mode),
{
    let mut ddr_val = ddr;
    let mask: u8 = 0x1 << index;

    ddr_val &= !mask;
    ddr_val |= match mode {
        IOMode::Input => 0x0,
        IOMode::Output => mask,
    };
    assert((ddr & !mask) | 0 == ddr & !mask && (ddr & !mask) | mask == ddr | mask) by (bit_vector);
    ddr_val
}

/// Whether `high` on pin `index` has to write the pin's mask to the toggle
/// register, given the values read from the output and the direction
/// register.
#[verifier::when_used_as_spec(spec_high_toggles)]
pub fn high_toggles(port: u8, ddr: u8, index: usize) -> (r: bool)
    ensures
        r == spec_high_toggles(port, ddr, index),
{
    if index >= 8 {
        return false;
    }
    port == 0 && ddr == (0x1 << index)
}

/// Whether `low` on pin `index` has to write the pin's mask to the toggle
/// register, given the values read from the output and the direction
/// register.
#[verifier::when_used_as_spec(spec_low_toggles)]
pub fn low_toggles(port: u8, ddr: u8, index: usize) -> (r: bool)
    ensures
        r == spec_low_toggles(port, ddr, index),
{
    if index >= 8 {
        return false;
    }
    port != 0 && ddr == (0x1 << index)
}

impl View for Port {
    type V = Registers;

    closed spec fn view(&self) -> Registers {
        Registers { address: self.address, ddr: self.ddr, port: self.port }
    }
}

impl Port {
    #[verifier::type_invariant]
    spec fn at_known_address(&self) -> bool {
        name_at(self.address) is Some
    }

    /// The registers of the port `name` as they are after a reset: every pin
    /// an input, the output register cleared.
    pub fn new(name: PortName) -> (r: Port)
        ensures
            r@ == (Registers { address: base_address(name), ddr: 0, port: 0 }),
    {
        let address: usize = match name {
            PortName::A => 0x20,
            PortName::B => 0x23,
            PortName::C => 0x26,
            PortName::D => 0x29,
            PortName::E => 0x2C,
            PortName::F => 0x2F,
            PortName::G => 0x32,
            PortName::H => 0x100,
            PortName::J => 0x103,
            PortName::K => 0x106,
            PortName::L => 0x109,
        };
        Port { address, ddr: 0, port: 0 }
    }

    /// The name of this port, found from the address of its registers.
    pub fn name(&self) -> (r: PortName)
        ensures
            name_at(self@.address) == Some(r),
            base_address(r) == self@.address,
    {
        proof {
            use_type_invariant(self);
        }
        let address = self.address;
        if address == 0x20 {
            PortName::A
        } else if address == 0x23 {
            PortName::B
        } else if address == 0x26 {
            PortName::C
        } else if address == 0x29 {
            PortName::D
        } else if address == 0x2C {
            PortName::E
        } else if address == 0x2F {
            PortName::F
        } else if address == 0x32 {
            PortName::G
        } else if address == 0x100 {
            PortName::H
        } else if address == 0x103 {
            PortName::J
        } else if address == 0x106 {
            PortName::K
        } else {
            PortName::L
        }
    }

    /// Pin `pin` of this port, if the port has such a pin. While the pin is
    /// held, the port is reached through it alone.
    pub fn pin(&mut self, pin: usize) -> (r: Option<Pin<'_>>)
        ensures
            r is Some <==> pin < 8,
            r is None ==> *final(self) == *old(self),
            r matches Some(p) ==> p.wf() && p.pin == pin && *p.port == *old(self)
                && *final(p.port) == *final(self),
    {
        if pin < 0x8 {
            Some(Pin { port: self, pin })
        } else {
            None
        }
    }

    /// The address of the first register of this port.
    pub fn address(&self) -> (r: usize)
        ensures
            r == self@.address,
    {
        self.address
    }

    /// Reads the direction register.
    pub fn read_ddr(&self) -> (r: u8)
        ensures
            r == self@.ddr,
    {
        self.ddr
    }

    /// Reads the output register.
    pub fn read_port(&self) -> (r: u8)
        ensures
            r == self@.port,
    {
        self.port
    }

    /// Writes `value` to the direction register.
    pub fn write_ddr(&mut self, value: u8)
        ensures
            final(self)@ == old(self)@.write_ddr(value),
    {
        proof {
            use_type_invariant(&*self);
        }
        self.ddr = value;
    }

    /// Writes `value` to the toggle register, which flips the bits of the
    /// output register that are set in `value`.
    pub fn write_pin(&mut self, value: u8)
        ensures
            final(self)@ == old(self)@.write_pin(value),
    {
        proof {
            use_type_invariant(&*self);
        }
        self.port = self.port ^ value;
    }
}

impl<'a> Pin<'a> {
    /// Whether the number of this pin is one that a port has.
    pub open spec fn wf(&self) -> bool {
        self.pin < 8
    }

    /// Pin `pin` of `port`, if the port has such a pin.
    pub fn new(port: &'a mut Port, pin: usize) -> (r: Option<Pin<'a>>)
        ensures
            r is Some <==> pin < 8,
            r is None ==> *final(port) == *old(port),
            r matches Some(p) ==> p.wf() && p.pin == pin && *p.port == *old(port)
                && *final(p.port) == *final(port),
    {
        port.pin(pin)
    }

    /// Makes the pin an input or an output: clears its bit of the direction
    /// register and sets it again for an output.
    pub fn set_pin_mode(&mut self, mode: IOMode)
        requires
            old(self).wf(),
        ensures
            final(self).pin == old(self).pin,
            final(self).port@ == old(self).port@.with_mode(old(self).pin, mode),
            *final(final(self).port) == *final(old(self).port),
    {
        let ddr_val = self.port.read_ddr();
        let ddr_val = mode_write(ddr_val, self.pin, mode);
        self.port.write_ddr(ddr_val);
    }

    /// Flips the pin's bit of the output register by writing the pin's mask
    /// to the toggle register.
    pub fn toggle(&mut self)
        requires
            old(self).wf(),
        ensures
            final(self).pin == old(self).pin,
            final(self).port@ == old(self).port@.toggled(old(self).pin),
            *final(final(self).port) == *final(old(self).port),
    {
        self.port.write_pin(pin_mask(self.pin));
    }

    /// Drives the pin high: toggles it if it is the only output of its port
    /// and the output register is zero, and does nothing otherwise.
    pub fn high(&mut self)
        ensures
            final(self).pin == old(self).pin,
            final(self).port@ == old(self).port@.raised(old(self).pin),
            *final(final(self).port) == *final(old(self).port),
    {
        if self.pin >= 8 {
            return ;
        }
        let p = self.port.read_port();
        let ddr_value = self.port.read_ddr();
        if high_toggles(p, ddr_value, self.pin) {
            self.toggle();
        }
    }

    /// Drives the pin low: toggles it if it is the only output of its port
    /// and the output register is not zero, and does nothing otherwise.
    pub fn low(&mut self)
        ensures
            final(self).pin == old(self).pin,
            final(self).port@ == old(self).port@.lowered(old(self).pin),
            *final(final(self).port) == *final(old(self).port),
    {
        if self.pin >= 8 {
            return ;
        }
        let p = self.port.read_port();
        let ddr_value = self.port.read_ddr();
        if low_toggles(p, ddr_value, self.pin) {
            self.toggle();
        }
    }

    /// Makes the pin an output.
    pub fn output(&mut self)
        requires
            old(self).wf(),
        ensures
            final(self).pin == old(self).pin,
            final(self).port@ == old(self).port@.with_mode(old(self).pin, IOMode::Output),
            *final(final(self).port) == *final(old(self).port),
    {
        self.set_pin_mode(IOMode::Output);
    }

    /// Makes the pin an input.
    pub fn input(&mut self)
        requires
            old(self).wf(),
        ensures
            final(self).pin == old(self).pin,
            final(self).port@ == old(self).port@.with_mode(old(self).pin, IOMode::Input),
            *final(final(self).port) == *final(old(self).port),
    {
        self.set_pin_mode(IOMode::Input);
    }
}

} // verus!
