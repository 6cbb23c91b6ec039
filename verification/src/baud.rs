//! Baud-rate translation: from a requested symbol rate to the fixed-point
//! value that the peripheral's BAUDRATE register expects.

use vstd::prelude::*;

verus! {

/// Register value for 115200 baud, used for every rate the hardware table
/// does not list.
pub const DEFAULT_BAUD_REGISTER: u32 = 0x01D6_0000;

/// The hardware's table of supported rates, as (rate, register value) pairs.
pub open spec fn baud_table() -> Seq<(u32, u32)> {
    seq![
        (1200u32, 0x0004_F000u32),
        (2400u32, 0x0009_D000u32),
        (4800u32, 0x0013_B000u32),
        (9600u32, 0x0027_5000u32),
        (14400u32, 0x003A_F000u32),
        (19200u32, 0x004E_A000u32),
        (28800u32, 0x0075_C000u32),
        (38400u32, 0x009D_0000u32),
        (57600u32, 0x00EB_0000u32),
        (76800u32, 0x013A_9000u32),
        (115200u32, 0x01D6_0000u32),
        (230400u32, 0x03B0_0000u32),
        (250000u32, 0x0400_0000u32),
        (460800u32, 0x0740_0000u32),
        (921600u32, 0x0F00_0000u32),
        (1000000u32, 0x1000_0000u32),
    ]
}

/// Whether `rate` has an entry of its own in the table.
pub open spec fn is_listed(rate: u32) -> bool {
    exists|i: int| 0 <= i < baud_table().len() && #[trigger] baud_table()[i].0 == rate
}

/// The register value that stands for `rate`: its table entry if it has
/// one, the 115200 entry otherwise. There is no rounding to a nearby rate.
pub open spec fn baud_register(rate: u32) -> u32 {
    if is_listed(rate) {
        let i = choose|i: int| 0 <= i < baud_table().len() && #[trigger] baud_table()[i].0 == rate;
        baud_table()[i].1
    } else {
        DEFAULT_BAUD_REGISTER
    }
}

/// No rate is listed twice, so a listed rate has exactly one register value.
pub proof fn lemma_table_rates_distinct()
    ensures
        baud_table().len() == 16,
        forall|i: int, j: int|
            0 <= i < j < baud_table().len() ==> baud_table()[i].0 != baud_table()[j].0,
{
}

/// Looking up a rate that stands at index `i` gives the value at index `i`.
pub proof fn lemma_listed_rate(i: int)
    requires
        0 <= i < baud_table().len(),
    ensures
        is_listed(baud_table()[i].0),
        baud_register(baud_table()[i].0) == baud_table()[i].1,
{
    lemma_table_rates_distinct();
}

/// A rate without an entry translates as 115200 does.
pub proof fn lemma_unlisted_rate_falls_back(rate: u32)
    requires
        !is_listed(rate),
    ensures
        baud_register(rate) == DEFAULT_BAUD_REGISTER,
        baud_register(rate) == baud_register(115200),
{
    lemma_listed_rate(10);
}

/// Translates a requested baud rate into the BAUDRATE register value.
pub fn translate(requested: u32) -> (register_value: u32)
    ensures
        register_value == baud_register(requested),
{
    proof {
        lemma_table_rates_distinct();
        if is_listed(requested) {
            let i = choose|i: int|
                0 <= i < baud_table().len() && #[trigger] baud_table()[i].0 == requested;
            lemma_listed_rate(i);
        }
    }
    match requested {
        1200 => 0x0004_F000,
        2400 => 0x0009_D000,
        4800 => 0x0013_B000,
        9600 => 0x0027_5000,
        14400 => 0x003A_F000,
        19200 => 0x004E_A000,
        28800 => 0x0075_C000,
        38400 => 0x009D_0000,
        57600 => 0x00EB_0000,
        76800 => 0x013A_9000,
        115200 => 0x01D6_0000,
        230400 => 0x03B0_0000,
        250000 => 0x0400_0000,
        460800 => 0x0740_0000,
        921600 => 0x0F00_0000,
        1000000 => 0x1000_0000,
        _ => DEFAULT_BAUD_REGISTER,
    }
}

} // verus!
