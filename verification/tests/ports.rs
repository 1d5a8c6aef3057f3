use rustduino::atmega2560p::hal::port::{
    high_toggles, low_toggles, mode_write, pin_mask, IOMode, Pin, Port, PortName, DDR_OFFSET,
    PIN_OFFSET, PORT_OFFSET,
};

const NAMES: [PortName; 11] = [
    PortName::A,
    PortName::B,
    PortName::C,
    PortName::D,
    PortName::E,
    PortName::F,
    PortName::G,
    PortName::H,
    PortName::J,
    PortName::K,
    PortName::L,
];

const ADDRESSES: [usize; 11] =
    [0x20, 0x23, 0x26, 0x29, 0x2c, 0x2f, 0x32, 0x100, 0x103, 0x106, 0x109];

/// A port with the direction register `ddr` and the output register `port`,
/// reached from the reset state by pin operations alone.
fn port_with(name: PortName, ddr: u8, port: u8) -> Port {
    let mut block = Port::new(name);
    for index in 0usize..8 {
        let mut pin = block.pin(index).unwrap();
        if ddr & (1 << index) != 0 {
            pin.output();
        }
        if port & (1 << index) != 0 {
            pin.toggle();
        }
    }
    assert_eq!(block.read_ddr(), ddr);
    assert_eq!(block.read_port(), port);
    block
}

#[test]
fn pin_is_present_exactly_below_eight() {
    let mut port = Port::new(PortName::A);
    for index in 0usize..8 {
        assert!(port.pin(index).is_some());
    }
    for index in 8usize..64 {
        assert!(port.pin(index).is_none());
    }
    assert!(port.pin(usize::MAX).is_none());
}

#[test]
fn pin_new_is_present_exactly_below_eight() {
    let mut port = Port::new(PortName::K);
    assert!(Pin::new(&mut port, 0).is_some());
    assert!(Pin::new(&mut port, 7).is_some());
    assert!(Pin::new(&mut port, 8).is_none());
    assert_eq!(Pin::new(&mut port, 5).unwrap().pin, 5);
}

#[test]
fn pin_remembers_its_number_and_port() {
    let mut port = Port::new(PortName::D);
    let pin = port.pin(6).unwrap();
    assert_eq!(pin.pin, 6);
    assert_eq!(pin.port.name(), PortName::D);
}

#[test]
fn asking_for_a_pin_changes_no_register() {
    let mut port = port_with(PortName::C, 0x5a, 0xa5);
    assert!(port.pin(3).is_some());
    assert!(port.pin(9).is_none());
    assert_eq!(port.read_ddr(), 0x5a);
    assert_eq!(port.read_port(), 0xa5);
}

#[test]
fn ports_sit_at_their_fixed_addresses() {
    for k in 0usize..11 {
        assert_eq!(Port::new(NAMES[k]).address(), ADDRESSES[k]);
    }
}

#[test]
fn port_knows_its_name() {
    for name in NAMES {
        assert_eq!(Port::new(name).name(), name);
    }
}

#[test]
fn register_blocks_do_not_overlap() {
    for a in 0usize..11 {
        for b in 0usize..11 {
            if a != b {
                assert!(ADDRESSES[a].abs_diff(ADDRESSES[b]) >= 3);
            }
        }
    }
    assert_eq!((PIN_OFFSET, DDR_OFFSET, PORT_OFFSET), (0, 1, 2));
}

#[test]
fn new_port_is_in_reset_state() {
    let port = Port::new(PortName::H);
    assert_eq!(port.read_ddr(), 0);
    assert_eq!(port.read_port(), 0);
}

#[test]
fn register_writes_follow_the_silicon() {
    let mut port = Port::new(PortName::E);
    port.write_ddr(0xf0);
    assert_eq!(port.read_ddr(), 0xf0);
    assert_eq!(port.read_port(), 0);
    port.write_pin(0x0f);
    assert_eq!(port.read_port(), 0x0f);
    port.write_pin(0x3c);
    assert_eq!(port.read_port(), 0x33);
    assert_eq!(port.read_ddr(), 0xf0);
    assert_eq!(port.address(), 0x2c);
}

#[test]
fn output_sets_only_the_bit_of_the_pin() {
    let mut port = port_with(PortName::B, 0b0100_0001, 0);
    port.pin(3).unwrap().output();
    assert_eq!(port.read_ddr(), 0b0100_1001);
    port.pin(3).unwrap().output();
    assert_eq!(port.read_ddr(), 0b0100_1001);
    assert_eq!(port.read_port(), 0);
}

#[test]
fn input_clears_only_the_bit_of_the_pin() {
    let mut port = port_with(PortName::B, 0b0100_1001, 0x10);
    port.pin(3).unwrap().input();
    assert_eq!(port.read_ddr(), 0b0100_0001);
    port.pin(3).unwrap().input();
    assert_eq!(port.read_ddr(), 0b0100_0001);
    assert_eq!(port.read_port(), 0x10);
}

#[test]
fn set_pin_mode_agrees_with_output_and_input() {
    let mut port = Port::new(PortName::F);
    port.pin(7).unwrap().set_pin_mode(IOMode::Output);
    assert_eq!(port.read_ddr(), 0x80);
    port.pin(0).unwrap().set_pin_mode(IOMode::Output);
    assert_eq!(port.read_ddr(), 0x81);
    port.pin(7).unwrap().set_pin_mode(IOMode::Input);
    assert_eq!(port.read_ddr(), 0x01);
}

#[test]
fn toggle_flips_the_output_bit_whatever_the_direction() {
    let mut port = Port::new(PortName::G);
    port.pin(2).unwrap().toggle();
    assert_eq!(port.read_port(), 0x04);
    assert_eq!(port.read_ddr(), 0);
    port.pin(5).unwrap().output();
    port.pin(5).unwrap().toggle();
    assert_eq!(port.read_port(), 0x24);
    port.pin(2).unwrap().toggle();
    assert_eq!(port.read_port(), 0x20);
    assert_eq!(port.read_ddr(), 0x20);
}

#[test]
fn high_raises_a_lone_output_pin() {
    for index in 0usize..8 {
        let mut port = Port::new(PortName::A);
        let mut pin = port.pin(index).unwrap();
        pin.output();
        pin.high();
        assert_eq!(port.read_port(), 1 << index);
        assert_eq!(port.read_ddr(), 1 << index);
    }
}

#[test]
fn high_is_idempotent_in_every_state() {
    for ddr in 0u8..=255 {
        for port_value in [0u8, 1, 8, 0x81, 0xff] {
            for index in [0usize, 3, 7] {
                let mut port = port_with(PortName::J, ddr, port_value);
                port.pin(index).unwrap().high();
                let once: u8 = port.read_port();
                port.pin(index).unwrap().high();
                assert_eq!(port.read_port(), once);
                assert_eq!(port.read_ddr(), ddr);
            }
        }
    }
}

#[test]
fn low_after_high_restores_a_cleared_port() {
    for index in 0usize..8 {
        let mut port = Port::new(PortName::L);
        let mut pin = port.pin(index).unwrap();
        pin.output();
        pin.high();
        pin.low();
        assert_eq!(port.read_port(), 0);
        assert_eq!(port.read_ddr(), 1 << index);
    }
}

#[test]
fn low_after_high_restores_unless_low_alone_toggles() {
    for ddr in 0u8..=255 {
        for port_value in [0u8, 1, 8, 0x81, 0xff] {
            for index in [0usize, 3, 7] {
                let mut port = port_with(PortName::J, ddr, port_value);
                let fires: bool = low_toggles(port_value, ddr, index);
                let mut pin = port.pin(index).unwrap();
                pin.high();
                pin.low();
                if fires {
                    assert_eq!(port.read_port(), port_value ^ (1 << index));
                } else {
                    assert_eq!(port.read_port(), port_value);
                }
            }
        }
    }
}

#[test]
fn low_after_high_clears_a_pin_that_was_already_high() {
    let mut port = port_with(PortName::B, 0x08, 0x08);
    let mut pin = port.pin(3).unwrap();
    pin.high();
    pin.low();
    assert_eq!(port.read_port(), 0);
}

#[test]
fn high_and_low_do_nothing_on_an_input_pin() {
    let mut port = port_with(PortName::C, 0, 0);
    port.pin(4).unwrap().high();
    assert_eq!(port.read_port(), 0);
    let mut port = port_with(PortName::C, 0, 0x10);
    port.pin(4).unwrap().low();
    assert_eq!(port.read_port(), 0x10);
}

#[test]
fn high_and_low_compare_the_whole_registers() {
    // Two outputs on the port: neither call toggles.
    let mut port = port_with(PortName::D, 0x18, 0);
    port.pin(3).unwrap().high();
    assert_eq!(port.read_port(), 0);
    let mut port = port_with(PortName::D, 0x18, 0x08);
    port.pin(3).unwrap().low();
    assert_eq!(port.read_port(), 0x08);
    // A lone output whose own bit is clear but another bit is set: `high`
    // does nothing and `low` sets the pin's bit.
    let mut port = port_with(PortName::D, 0x08, 0x01);
    port.pin(3).unwrap().high();
    assert_eq!(port.read_port(), 0x01);
    port.pin(3).unwrap().low();
    assert_eq!(port.read_port(), 0x09);
}

#[test]
fn high_and_low_ignore_a_pin_number_out_of_range() {
    let mut port = port_with(PortName::E, 0x01, 0);
    {
        let mut pin = Pin { port: &mut port, pin: 8 };
        pin.high();
        pin.low();
    }
    assert_eq!(port.read_port(), 0);
    let mut port = port_with(PortName::E, 0x01, 0x01);
    {
        let mut pin = Pin { port: &mut port, pin: 64 };
        pin.low();
        pin.high();
    }
    assert_eq!(port.read_port(), 0x01);
    assert_eq!(port.read_ddr(), 0x01);
}

#[test]
fn pin_mask_has_the_bit_of_the_pin() {
    let expected: [u8; 8] = [1, 2, 4, 8, 16, 32, 64, 128];
    for index in 0usize..8 {
        assert_eq!(pin_mask(index), expected[index]);
    }
}

#[test]
fn mode_write_exact_values() {
    assert_eq!(mode_write(0x00, 3, IOMode::Output), 0x08);
    assert_eq!(mode_write(0xff, 3, IOMode::Output), 0xff);
    assert_eq!(mode_write(0xff, 3, IOMode::Input), 0xf7);
    assert_eq!(mode_write(0x00, 3, IOMode::Input), 0x00);
    assert_eq!(mode_write(0x41, 7, IOMode::Output), 0xc1);
    assert_eq!(mode_write(0xc1, 0, IOMode::Input), 0xc0);
}

#[test]
fn high_toggles_only_a_lone_output_on_a_cleared_port() {
    assert!(high_toggles(0, 0x08, 3));
    assert!(!high_toggles(0x08, 0x08, 3));
    assert!(!high_toggles(0x01, 0x08, 3));
    assert!(!high_toggles(0, 0x18, 3));
    assert!(!high_toggles(0, 0, 3));
    assert!(!high_toggles(0, 0x08, 4));
    assert!(!high_toggles(0, 0x01, 8));
    assert!(!high_toggles(0, 0, usize::MAX));
}

#[test]
fn low_toggles_only_a_lone_output_on_a_driven_port() {
    assert!(low_toggles(0x08, 0x08, 3));
    assert!(low_toggles(0x01, 0x08, 3));
    assert!(!low_toggles(0, 0x08, 3));
    assert!(!low_toggles(0x08, 0x18, 3));
    assert!(!low_toggles(0x08, 0, 3));
    assert!(!low_toggles(0x08, 0x08, 4));
    assert!(!low_toggles(0x01, 0x01, 8));
    assert!(!low_toggles(0xff, 0, usize::MAX));
}
