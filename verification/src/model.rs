//! The effect server's model of the installation: nine elder stations, each
//! with one crane light and two pneumatic poofers driven by relay-bus
//! solenoids.

use vstd::prelude::*;

use crate::frame::Pixel;
use crate::mapping::{get_elder_defs, spec_elder_def};
use crate::node::Endpoint;

verus! {

/// Where a poofer's solenoid sits on the relay bus.
///
/// The board address is set by dip switches: switch 1 is the least
/// significant bit, switch 5 the most significant; a switch pushed in the
/// direction of its arrow means 0. Relay numbers within a board are
/// one-indexed and run up to 8.
#[derive(Clone, Copy, Debug, PartialEq, Eq, Structural)]
pub struct RelayAddress {
    pub board_address: u8,
    pub relay_number: u8,
}

/// One poofer: a binary on/off relay, edge-triggered. A command goes onto
/// the bus only when the state changes; repeating the same state does not
/// resend.
#[derive(Clone, Copy, Debug, PartialEq, Eq, Structural)]
pub struct Poofer {
    pub relay_address: RelayAddress,
    pub on: bool,
    pub needs_to_send_command: bool,
}

/// The poofer after being asked for state `v`: the state is `v`, and a
/// command became due exactly if the state changed.
pub open spec fn spec_poofed(p: Poofer, v: bool) -> Poofer {
    Poofer {
        relay_address: p.relay_address,
        on: v,
        needs_to_send_command: p.needs_to_send_command || p.on != v,
    }
}

impl Poofer {
    /// Ask the poofer for state `new_value_of_on`; marks a command due on an
    /// edge and does nothing on a repeat.
    pub fn poof(&mut self, new_value_of_on: bool)
        ensures
            *final(self) == spec_poofed(*old(self), new_value_of_on),
    {
        match (self.on, new_value_of_on) {
            (true, false) => {
                self.on = false;
                self.needs_to_send_command = true;
            },
            (false, true) => {
                self.on = true;
                self.needs_to_send_command = true;
            },
            _ => {},
        }
    }
}

/// One elder station: the address its pixel frames are sent to, its crane
/// light, and its two poofers.
#[derive(Clone, Debug)]
pub struct Elder {
    pub artnet_target: Endpoint,
    pub crane_light: Pixel,
    pub poofer_wide: Poofer,
    pub poofer_narrow: Poofer,
}

/// The elder built for definition `i`: target address `169.254.5.x` on the
/// Art-Net port, light off, both poofers off with their configured relays.
pub open spec fn spec_initial_elder(i: int) -> Elder {
    Elder {
        artnet_target: Endpoint {
            ip: [169u8, 254u8, 5u8, spec_elder_def(i).artnet_target_ip_last_octet],
            port: 0x1936u16,
        },
        crane_light: Pixel { r: 0u8, g: 0u8, b: 0u8 },
        poofer_wide: Poofer {
            relay_address: spec_elder_def(i).relay_wide,
            on: false,
            needs_to_send_command: false,
        },
        poofer_narrow: Poofer {
            relay_address: spec_elder_def(i).relay_narrow,
            on: false,
            needs_to_send_command: false,
        },
    }
}

/// Build the nine elders from the installation's wiring table, lights off
/// and poofers idle.
pub fn create_elders() -> (r: Vec<Elder>)
    ensures
        r@.len() == 9,
        forall|i: int| 0 <= i < 9 ==> r@[i] == spec_initial_elder(i),
{
    let defs = get_elder_defs();
    let mut elders: Vec<Elder> = Vec::new();
    let mut i: usize = 0;
    while i < 9
        invariant
            i <= 9,
            elders@.len() == i,
            forall|k: int| 0 <= k < i ==> elders@[k] == spec_initial_elder(k),
            forall|k: int| 0 <= k < 9 ==> defs@[k] == spec_elder_def(k),
        decreases 9 - i,
    {
        let def = &defs[i];
        elders.push(
            Elder {
                artnet_target: Endpoint {
                    ip: [169, 254, 5, def.artnet_target_ip_last_octet],
                    port: 0x1936,
                },
                crane_light: Pixel { r: 0, g: 0, b: 0 },
                poofer_wide: Poofer {
                    relay_address: def.relay_wide,
                    on: false,
                    needs_to_send_command: false,
                },
                poofer_narrow: Poofer {
                    relay_address: def.relay_narrow,
                    on: false,
                    needs_to_send_command: false,
                },
            },
        );
        i += 1;
    }
    elders
}

/// Ask every poofer of every elder for the off state (edge-triggered, as
/// [`Poofer::poof`] is).
pub fn turn_all_poofers_off(elders: &mut Vec<Elder>)
    ensures
        final(elders)@.len() == old(elders)@.len(),
        forall|i: int|
            0 <= i < old(elders)@.len() ==> #[trigger] final(elders)@[i] == (Elder {
                poofer_wide: spec_poofed(old(elders)@[i].poofer_wide, false),
                poofer_narrow: spec_poofed(old(elders)@[i].poofer_narrow, false),
                ..old(elders)@[i]
            }),
{
    let n = elders.len();
    let mut i: usize = 0;
    while i < n
        invariant
            n == old(elders)@.len(),
            i <= n,
            elders@.len() == n,
            forall|k: int|
                i <= k < n ==> #[trigger] elders@[k] == old(elders)@[k],
            forall|k: int|
                0 <= k < i ==> #[trigger] elders@[k] == (Elder {
                    poofer_wide: spec_poofed(old(elders)@[k].poofer_wide, false),
                    poofer_narrow: spec_poofed(old(elders)@[k].poofer_narrow, false),
                    ..old(elders)@[k]
                }),
        decreases n - i,
    {
        let elder = &mut elders[i];
        elder.poofer_wide.poof(false);
        elder.poofer_narrow.poof(false);
        i += 1;
    }
}

} // verus!
