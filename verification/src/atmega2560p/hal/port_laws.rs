//! Facts about the port addresses and about what the pin operations do to
//! the registers of a port.

use crate::atmega2560p::hal::port::{
    base_address, high_toggles, low_toggles, mode_write, name_at, pin_mask, IOMode, PortName,
    Registers,
};
use crate::math::random::bit_is_set;
use vstd::prelude::*;

verus! {

/// Every port is found again from its base address.
pub proof fn name_found_at_base_address(name: PortName)
    ensures
        name_at(base_address(name)) == Some(name),
{
}

/// An address at which a port is found is the base address of that port.
pub proof fn base_address_of_name_found(address: usize)
    requires
        name_at(address) is Some,
    ensures
        base_address(name_at(address)->Some_0) == address,
{
}

/// The register blocks of two different ports share no address: their base
/// addresses lie at least three apart.
pub proof fn ports_do_not_overlap(a: PortName, b: PortName)
    requires
        a != b,
    ensures
        base_address(a) + 3 <= base_address(b) || base_address(b) + 3 <= base_address(a),
{
}

/// The mask of a pin has the pin's bit set and no other.
pub proof fn mask_has_one_bit(index: usize, other: usize)
    by (bit_vector)
    requires
        index < 8,
        other < 8,
    ensures
        pin_mask(index) != 0,
        bit_is_set(pin_mask(index), other) <==> other == index,
{
}

/// Giving a pin a direction sets its bit of the direction register for an
/// output and clears it for an input.
pub proof fn mode_sets_own_bit(ddr: u8, index: usize, mode: IOMode)
    requires
        index < 8,
    ensures
        bit_is_set(mode_write(ddr, index, mode), index) <==> mode == IOMode::Output,
{
    assert((ddr | (1u8 << index)) & (1u8 << index) != 0 && (ddr & !(1u8 << index)) & (1u8 << index)
        == 0) by (bit_vector)
        requires
            index < 8,
    ;
}

/// Giving a pin a direction leaves the bits of the other pins as they were.
pub proof fn mode_keeps_other_bits(ddr: u8, index: usize, mode: IOMode, other: usize)
    requires
        index < 8,
        other < 8,
        other != index,
    ensures
        bit_is_set(mode_write(ddr, index, mode), other) == bit_is_set(ddr, other),
{
    assert((ddr | (1u8 << index)) & (1u8 << other) == ddr & (1u8 << other) && (ddr & !(1u8
        << index)) & (1u8 << other) == ddr & (1u8 << other)) by (bit_vector)
        requires
            index < 8,
            other < 8,
            other != index,
    ;
}

/// Giving a pin the direction it has changes nothing.
pub proof fn mode_is_idempotent(registers: Registers, index: usize, mode: IOMode)
    requires
        index < 8,
    ensures
        registers.with_mode(index, mode).with_mode(index, mode) == registers.with_mode(index, mode),
{
    let ddr = registers.ddr;
    assert(((ddr | (1u8 << index)) | (1u8 << index)) == ddr | (1u8 << index) && ((ddr & !(1u8
        << index)) & !(1u8 << index)) == ddr & !(1u8 << index)) by (bit_vector);
}

/// Toggling a pin twice restores the registers.
pub proof fn toggle_twice_restores(registers: Registers, index: usize)
    ensures
        registers.toggled(index).toggled(index) == registers,
{
    let port = registers.port;
    let mask = pin_mask(index);
    assert((port ^ mask) ^ mask == port) by (bit_vector);
}

/// `high` twice in a row leaves the registers as `high` once does.
pub proof fn high_is_idempotent(registers: Registers, index: usize)
    ensures
        registers.raised(index).raised(index) == registers.raised(index),
{
    if high_toggles(registers.port, registers.ddr, index) {
        assert(0u8 ^ (1u8 << index) != 0) by (bit_vector)
            requires
                index < 8,
        ;
    }
}

/// `low` after `high` restores the registers, unless `low` alone would have
/// toggled the pin: then `high` does nothing and `low` flips the pin's bit.
pub proof fn low_undoes_high(registers: Registers, index: usize)
    requires
        !low_toggles(registers.port, registers.ddr, index),
    ensures
        registers.raised(index).lowered(index) == registers,
{
    if high_toggles(registers.port, registers.ddr, index) {
        assert(0u8 ^ (1u8 << index) != 0 && (0u8 ^ (1u8 << index)) ^ (1u8 << index) == 0)
            by (bit_vector)
            requires
                index < 8,
        ;
    }
}

/// Where `low` alone would have toggled the pin, `low` after `high` does
/// not restore the registers.
pub proof fn low_after_high_flips_a_driven_port(registers: Registers, index: usize)
    requires
        low_toggles(registers.port, registers.ddr, index),
    ensures
        registers.raised(index).lowered(index) == registers.toggled(index),
        registers.raised(index).lowered(index) != registers,
{
    let port = registers.port;
    assert(port ^ (1u8 << index) != port) by (bit_vector)
        requires
            index < 8,
    ;
}

} // verus!
