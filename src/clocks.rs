//! The clock gate and reset line of each port's peripheral.

use vstd::prelude::*;
use crate::types::Port;

verus! {

/// The bit of `port` in the enable and reset masks.
pub open spec fn port_bit(port: Port) -> u8 {
    (1u8 << port.code() as u8) as u8
}

/// One clock-enable bit and one reset bit per port, at the port's code.
#[derive(Copy, Clone, Debug, PartialEq, Eq, Structural)]
pub struct PortClocks {
    pub enabled: u8,
    pub reset: u8,
}

impl PortClocks {
    pub open spec fn is_enabled(self, port: Port) -> bool {
        self.enabled & port_bit(port) != 0
    }

    /// All clocks gated off, no reset asserted.
    pub fn new() -> (r: PortClocks)
        ensures
            r.enabled == 0,
            r.reset == 0,
    {
        PortClocks { enabled: 0, reset: 0 }
    }

    /// Enables the clock of `port` the first time it is used: sets its enable bit,
    /// then pulses its reset bit. Returns whether it did so; a port already enabled
    /// is left as it is.
    pub fn enable_port(&mut self, port: Port) -> (pulsed: bool)
        ensures
            pulsed == !old(self).is_enabled(port),
            final(self).enabled == old(self).enabled | port_bit(port),
            final(self).reset == if pulsed {
                old(self).reset & !port_bit(port)
            } else {
                old(self).reset
            },
            final(self).is_enabled(port),
    {
        let code = port.cr_val();
        let bit: u8 = 1u8 << code;
        let e = self.enabled;
        let r = self.reset;
        assert(bit == 1u8 || bit == 2u8 || bit == 4u8 || bit == 8u8 || bit == 16u8 || bit == 32u8
            || bit == 64u8 || bit == 128u8) by (bit_vector)
            requires bit == 1u8 << code, code < 8u8;
        if e & bit == 0 {
            self.enabled = e | bit;
            self.reset = r | bit;
            self.reset = self.reset & !bit;
            assert((r | bit) & !bit == r & !bit) by (bit_vector);
            assert((e | bit) & bit != 0) by (bit_vector)
                requires bit != 0u8;
            true
        } else {
            assert((e | bit) == e) by (bit_vector)
                requires e & bit != 0u8, bit == 1u8 || bit == 2u8 || bit == 4u8
                    || bit == 8u8 || bit == 16u8 || bit == 32u8 || bit == 64u8 || bit == 128u8;
            false
        }
    }
}

} // verus!
