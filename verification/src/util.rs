//! Register math shared by the players and the visualisation.

use vstd::prelude::*;

verus! {

/// The 12-bit tone period of a channel from its low and high period
/// registers (high register's low 4 bits), or `None` when it is zero.
pub fn channel_period(lo: u8, hi: u8) -> (r: Option<u16>)
    ensures
        r == (if (hi % 16) * 256 + lo == 0 {
            None::<u16>
        } else {
            Some(((hi % 16) * 256 + lo) as u16)
        }),
{
    let period = (((hi as u16) & 0x0F) << 8) | (lo as u16);
    assert((((hi as u16) & 0x0Fu16) << 8u16) | (lo as u16) == (hi % 16) as u16 * 256 + lo as u16) by (bit_vector);
    if period == 0 {
        None
    } else {
        Some(period)
    }
}

} // verus!
