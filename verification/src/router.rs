//! Universe routing: maps a 15-bit Art-Net port address to a physical output
//! channel and a pixel offset within that channel's frame buffer.
//!
//! Each physical channel is fed by up to ten consecutive port addresses; each
//! port address (universe) fills one contiguous slice of the channel's buffer,
//! `PIXELS_PER_UNIVERSE` pixels long (a DMX universe carries 512 bytes, three
//! bytes per RGB pixel).

use vstd::prelude::*;

verus! {

/// Number of whole RGB pixels carried by one DMX universe: 512 / 3.
pub const PIXELS_PER_UNIVERSE: usize = 512 / 3;

/// Number of port addresses that feed a single physical channel.
pub const UNIVERSES_PER_CHANNEL: usize = 10;

/// The channel that a port address selects.
pub open spec fn spec_channel_of(p: int) -> int {
    p / 10
}

/// The pixel offset within the channel's buffer that a port address selects.
pub open spec fn spec_offset_of(p: int) -> int {
    (p % 10) * 170
}

/// Map a port address to `(channel_index, pixel_offset)`:
/// `channel = p / 10`, `offset = (p % 10) * PIXELS_PER_UNIVERSE`.
pub fn route(port_address: u16) -> (r: (usize, usize))
    ensures
        r.0 == spec_channel_of(port_address as int),
        r.1 == spec_offset_of(port_address as int),
{
    let channel = (port_address / 10) as usize;
    let offset = ((port_address % 10) as usize) * PIXELS_PER_UNIVERSE;
    (channel, offset)
}

} // verus!
