use nrf52::baud::{translate, DEFAULT_BAUD_REGISTER};
use nrf52::registers::{Register, RegisterOp};
use nrf52::uart::{set_baud_rate, UARTParams, UARTE};

#[test]
fn translate_9600() {
    assert_eq!(translate(9600), 0x0027_5000);
}

#[test]
fn translate_unlisted_rate_falls_back_to_115200() {
    assert_eq!(translate(999_999), 0x01D6_0000);
    assert_eq!(translate(999_999), translate(115_200));
}

#[test]
fn translate_every_listed_rate() {
    let table: [(u32, u32); 16] = [
        (1200, 0x0004_F000),
        (2400, 0x0009_D000),
        (4800, 0x0013_B000),
        (9600, 0x0027_5000),
        (14400, 0x003A_F000),
        (19200, 0x004E_A000),
        (28800, 0x0075_C000),
        (38400, 0x009D_0000),
        (57600, 0x00EB_0000),
        (76800, 0x013A_9000),
        (115200, 0x01D6_0000),
        (230400, 0x03B0_0000),
        (250000, 0x0400_0000),
        (460800, 0x0740_0000),
        (921600, 0x0F00_0000),
        (1000000, 0x1000_0000),
    ];
    for (rate, value) in table {
        assert_eq!(translate(rate), value, "rate {}", rate);
    }
}

#[test]
fn translate_does_not_round_to_a_neighbour() {
    for rate in [0u32, 1, 1199, 1201, 9599, 9601, 115_199, 115_201, 1_000_001, u32::MAX] {
        assert_eq!(translate(rate), DEFAULT_BAUD_REGISTER, "rate {}", rate);
    }
}

#[test]
fn default_register_is_the_115200_entry() {
    assert_eq!(DEFAULT_BAUD_REGISTER, 0x01D6_0000);
    assert_eq!(translate(115_200), DEFAULT_BAUD_REGISTER);
}

#[test]
fn set_baud_rate_writes_the_translation() {
    assert_eq!(
        set_baud_rate(9600),
        RegisterOp::Write { register: Register::Baudrate, value: 0x0027_5000 }
    );
    assert_eq!(
        set_baud_rate(12345),
        RegisterOp::Write { register: Register::Baudrate, value: 0x01D6_0000 }
    );
}

#[test]
fn init_enables_then_sets_the_baud_rate() {
    let uart = UARTE::new();
    let ops = uart.init(UARTParams { baud_rate: 38400 });
    assert_eq!(
        ops,
        vec![
            RegisterOp::Write { register: Register::Enable, value: 8 },
            RegisterOp::Write { register: Register::Baudrate, value: 0x009D_0000 },
        ]
    );
}

#[test]
fn init_with_unlisted_rate_uses_the_default() {
    let uart = UARTE::new();
    let ops = uart.init(UARTParams { baud_rate: 31250 });
    assert_eq!(
        ops,
        vec![
            RegisterOp::Write { register: Register::Enable, value: 8 },
            RegisterOp::Write { register: Register::Baudrate, value: 0x01D6_0000 },
        ]
    );
}
