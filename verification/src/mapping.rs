//! The installation's wiring table: which network address each elder's
//! receiver node answers on, and where each poofer's solenoid sits on the
//! relay bus.

use vstd::prelude::*;

use crate::model::RelayAddress;

verus! {

/// One elder's static configuration.
#[derive(Clone, Copy, Debug, PartialEq, Eq, Structural)]
pub struct ElderDefinition {
    pub artnet_target_ip_last_octet: u8,
    pub relay_narrow: RelayAddress,
    pub relay_wide: RelayAddress,
}

/// The wiring of elder `i`: consecutive last IP octets from 51, and the
/// relay assignments as physically cabled.
pub open spec fn spec_elder_def(i: int) -> ElderDefinition {
    let octet = (51 + i) as u8;
    let wiring: (u8, u8, u8) = if i == 0 {
        (2u8, 3u8, 4u8)
    } else if i == 1 {
        (2u8, 5u8, 6u8)
    } else if i == 2 {
        (2u8, 1u8, 2u8)
    } else if i == 3 {
        (1u8, 1u8, 2u8)
    } else if i == 4 {
        (1u8, 5u8, 6u8)
    } else if i == 5 {
        (1u8, 3u8, 4u8)
    } else if i == 6 {
        (3u8, 1u8, 2u8)
    } else if i == 7 {
        (3u8, 5u8, 6u8)
    } else {
        (3u8, 3u8, 4u8)
    };
    ElderDefinition {
        artnet_target_ip_last_octet: octet,
        relay_narrow: RelayAddress { board_address: wiring.0, relay_number: wiring.1 },
        relay_wide: RelayAddress { board_address: wiring.0, relay_number: wiring.2 },
    }
}

/// The full wiring table, elder by elder.
pub fn get_elder_defs() -> (r: [ElderDefinition; 9])
    ensures
        forall|i: int| 0 <= i < 9 ==> r@[i] == spec_elder_def(i),
{
    [
        ElderDefinition {
            artnet_target_ip_last_octet: 51,
            relay_narrow: RelayAddress { board_address: 2, relay_number: 3 },
            relay_wide: RelayAddress { board_address: 2, relay_number: 4 },
        },
        ElderDefinition {
            artnet_target_ip_last_octet: 52,
            relay_narrow: RelayAddress { board_address: 2, relay_number: 5 },
            relay_wide: RelayAddress { board_address: 2, relay_number: 6 },
        },
        ElderDefinition {
            artnet_target_ip_last_octet: 53,
            relay_narrow: RelayAddress { board_address: 2, relay_number: 1 },
            relay_wide: RelayAddress { board_address: 2, relay_number: 2 },
        },
        ElderDefinition {
            artnet_target_ip_last_octet: 54,
            relay_narrow: RelayAddress { board_address: 1, relay_number: 1 },
            relay_wide: RelayAddress { board_address: 1, relay_number: 2 },
        },
        ElderDefinition {
            artnet_target_ip_last_octet: 55,
            relay_narrow: RelayAddress { board_address: 1, relay_number: 5 },
            relay_wide: RelayAddress { board_address: 1, relay_number: 6 },
        },
        ElderDefinition {
            artnet_target_ip_last_octet: 56,
            relay_narrow: RelayAddress { board_address: 1, relay_number: 3 },
            relay_wide: RelayAddress { board_address: 1, relay_number: 4 },
        },
        ElderDefinition {
            artnet_target_ip_last_octet: 57,
            relay_narrow: RelayAddress { board_address: 3, relay_number: 1 },
            relay_wide: RelayAddress { board_address: 3, relay_number: 2 },
        },
        ElderDefinition {
            artnet_target_ip_last_octet: 58,
            relay_narrow: RelayAddress { board_address: 3, relay_number: 5 },
            relay_wide: RelayAddress { board_address: 3, relay_number: 6 },
        },
        ElderDefinition {
            artnet_target_ip_last_octet: 59,
            relay_narrow: RelayAddress { board_address: 3, relay_number: 3 },
            relay_wide: RelayAddress { board_address: 3, relay_number: 4 },
        },
    ]
}

} // verus!
