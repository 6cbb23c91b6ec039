//! Pin selectors: which GPIO pin a peripheral signal is routed to.

use vstd::prelude::*;

verus! {

/// A pin selector. The driver does not interpret it beyond placing its
/// number in a PSEL register.
#[derive(Clone, Copy, Debug, PartialEq, Eq, Structural)]
pub struct Pinmux {
    pub pin: u32,
}

impl Pinmux {
    /// The selector of pin number `pin`.
    pub fn new(pin: u32) -> (p: Pinmux)
        ensures
            p.pin == pin,
    {
        Pinmux { pin }
    }

    /// The pin number.
    pub fn number(self) -> (pin: u32)
        ensures
            pin == self.pin,
    {
        self.pin
    }
}

} // verus!
