//! Relay-bus commands for the poofer solenoids: the ASCII command string
//! `!{board:02}{relay}{on}.` — an exclamation mark, the board address as two
//! zero-padded decimal digits, the relay number as one digit, `1` or `0` for
//! on or off, and a full stop. Commands are edge-triggered: one is produced
//! per state transition and repeating a state produces none.

use vstd::prelude::*;

use crate::model::{Elder, Poofer, RelayAddress};

verus! {

/// The decimal digit character for `d`.
pub open spec fn spec_digit(d: int) -> char {
    if d == 0 {
        '0'
    } else if d == 1 {
        '1'
    } else if d == 2 {
        '2'
    } else if d == 3 {
        '3'
    } else if d == 4 {
        '4'
    } else if d == 5 {
        '5'
    } else if d == 6 {
        '6'
    } else if d == 7 {
        '7'
    } else if d == 8 {
        '8'
    } else {
        '9'
    }
}

/// The one-character string for digit `d`.
fn digit_str(d: u8) -> (r: &'static str)
    requires
        d < 10,
    ensures
        r@ =~= seq![spec_digit(d as int)],
{
    if d == 0 {
        proof {
            reveal_strlit("0");
        }
        "0"
    } else if d == 1 {
        proof {
            reveal_strlit("1");
        }
        "1"
    } else if d == 2 {
        proof {
            reveal_strlit("2");
        }
        "2"
    } else if d == 3 {
        proof {
            reveal_strlit("3");
        }
        "3"
    } else if d == 4 {
        proof {
            reveal_strlit("4");
        }
        "4"
    } else if d == 5 {
        proof {
            reveal_strlit("5");
        }
        "5"
    } else if d == 6 {
        proof {
            reveal_strlit("6");
        }
        "6"
    } else if d == 7 {
        proof {
            reveal_strlit("7");
        }
        "7"
    } else if d == 8 {
        proof {
            reveal_strlit("8");
        }
        "8"
    } else {
        proof {
            reveal_strlit("9");
        }
        "9"
    }
}

/// The characters of the command that drives `address` to state `on`.
pub open spec fn spec_relay_command(address: RelayAddress, on: bool) -> Seq<char> {
    seq![
        '!',
        spec_digit(address.board_address as int / 10),
        spec_digit(address.board_address as int % 10),
        spec_digit(address.relay_number as int),
        if on {
            '1'
        } else {
            '0'
        },
        '.',
    ]
}

/// A relay address the bus can actually carry: a two-digit board address and
/// a one-digit relay number.
pub open spec fn spec_relay_addressable(address: RelayAddress) -> bool {
    address.board_address < 100 && address.relay_number < 10
}

/// Format the command string that drives `address` to state `on`.
pub fn relay_command(address: &RelayAddress, on: bool) -> (r: String)
    requires
        spec_relay_addressable(*address),
    ensures
        r@ == spec_relay_command(*address, on),
{
    proof {
        reveal_strlit("!");
        reveal_strlit(".");
    }
    let mut s = String::from_str("!");
    s.append(digit_str(address.board_address / 10));
    s.append(digit_str(address.board_address % 10));
    s.append(digit_str(address.relay_number));
    s.append(digit_str(if on {
        1
    } else {
        0
    }));
    s.append(".");
    proof {
        assert(s@ =~= spec_relay_command(*address, on));
    }
    s
}

/// The commands one elder owes the bus right now: its wide poofer's, then
/// its narrow poofer's, each only if due.
pub open spec fn spec_due_commands(e: Elder) -> Seq<Seq<char>> {
    let wide: Seq<Seq<char>> = if e.poofer_wide.needs_to_send_command {
        seq![spec_relay_command(e.poofer_wide.relay_address, e.poofer_wide.on)]
    } else {
        Seq::empty()
    };
    let narrow: Seq<Seq<char>> = if e.poofer_narrow.needs_to_send_command {
        seq![spec_relay_command(e.poofer_narrow.relay_address, e.poofer_narrow.on)]
    } else {
        Seq::empty()
    };
    wide + narrow
}

/// All commands the elders owe the bus, in elder order.
pub open spec fn spec_pending_commands(elders: Seq<Elder>) -> Seq<Seq<char>>
    decreases elders.len(),
{
    if elders.len() == 0 {
        Seq::empty()
    } else {
        spec_pending_commands(elders.drop_last()) + spec_due_commands(elders.last())
    }
}

/// The elder with both "command due" flags cleared; everything else as it was.
pub open spec fn spec_commands_taken(e: Elder) -> Elder {
    Elder {
        poofer_wide: Poofer { needs_to_send_command: false, ..e.poofer_wide },
        poofer_narrow: Poofer { needs_to_send_command: false, ..e.poofer_narrow },
        ..e
    }
}

/// Collect every due command, wide before narrow within each elder, in elder
/// order, and clear the flags: each state transition is sent exactly once.
pub fn take_pending_commands(elders: &mut Vec<Elder>) -> (r: Vec<String>)
    requires
        forall|i: int|
            0 <= i < old(elders)@.len() ==> spec_relay_addressable(
                #[trigger] old(elders)@[i].poofer_wide.relay_address,
            ) && spec_relay_addressable(old(elders)@[i].poofer_narrow.relay_address),
    ensures
        r@.map_values(|s: String| s@) == spec_pending_commands(old(elders)@),
        final(elders)@.len() == old(elders)@.len(),
        forall|i: int|
            0 <= i < old(elders)@.len() ==> #[trigger] final(elders)@[i] == spec_commands_taken(
                old(elders)@[i],
            ),
{
    let n = elders.len();
    let mut out: Vec<String> = Vec::new();
    let mut i: usize = 0;
    assert(out@.map_values(|s: String| s@) =~= spec_pending_commands(old(elders)@.subrange(0, 0)));
    while i < n
        invariant
            n == old(elders)@.len(),
            i <= n,
            elders@.len() == n,
            forall|k: int|
                0 <= k < n ==> spec_relay_addressable(
                    #[trigger] old(elders)@[k].poofer_wide.relay_address,
                ) && spec_relay_addressable(old(elders)@[k].poofer_narrow.relay_address),
            forall|k: int| i <= k < n ==> #[trigger] elders@[k] == old(elders)@[k],
            forall|k: int|
                0 <= k < i ==> #[trigger] elders@[k] == spec_commands_taken(old(elders)@[k]),
            out@.map_values(|s: String| s@) == spec_pending_commands(
                old(elders)@.subrange(0, i as int),
            ),
        decreases n - i,
    {
        let ghost prefix = old(elders)@.subrange(0, i as int);
        let ghost out_before = out@;
        let elder = &mut elders[i];
        let ghost e = *elder;
        if elder.poofer_wide.needs_to_send_command {
            out.push(relay_command(&elder.poofer_wide.relay_address, elder.poofer_wide.on));
            elder.poofer_wide.needs_to_send_command = false;
        }
        if elder.poofer_narrow.needs_to_send_command {
            out.push(relay_command(&elder.poofer_narrow.relay_address, elder.poofer_narrow.on));
            elder.poofer_narrow.needs_to_send_command = false;
        }
        proof {
            assert(e == old(elders)@[i as int]);
            assert(out@.map_values(|s: String| s@) =~= out_before.map_values(|s: String| s@)
                + spec_due_commands(e));
            assert(old(elders)@.subrange(0, i + 1).drop_last() =~= prefix);
            assert(old(elders)@.subrange(0, i + 1).last() == e);
            assert(out@.map_values(|s: String| s@) =~= spec_pending_commands(
                old(elders)@.subrange(0, i + 1),
            ));
        }
        i += 1;
    }
    proof {
        assert(old(elders)@.subrange(0, n as int) =~= old(elders)@);
    }
    out
}

} // verus!
