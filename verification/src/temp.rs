//! Readings of the on-chip temperature sensor. Starting a measurement and
//! waiting for it is left to the caller.

use vstd::prelude::*;

verus! {

/// The measurement unit to return a temperature in.
#[derive(Copy, Clone, PartialEq, Eq, Structural, Debug)]
pub enum Degrees {
    Celsius,
    Fahrenheit,
}

/// The temperature, in quarters of a degree Celsius, that the sensor's
/// 32-bit result register holds: the register is read as a two's-complement
/// number. For example 88 stands for 22 degrees Celsius.
pub fn temperature_from_register(bits: u32) -> (quarters: i32)
    ensures
        quarters == (if bits <= i32::MAX as u32 { bits as int } else { bits - 0x1_0000_0000 }),
{
    let quarters = bits as i32;
    assert(quarters == (if bits <= 0x7fff_ffffu32 { bits as int } else { bits - 0x1_0000_0000 })) by (bit_vector)
        requires
            quarters == bits as i32;
    quarters
}

} // verus!
