//! The effect library for the desktop player. Each effect is a small struct
//! with a display name and a `render` step that rewrites the elders' lights
//! and poofers from the elapsed time, in milliseconds of program time and of
//! effect time.
//!
//! The sinusoidal color sweeps (`Pseudorandom`, `Unison2Colors`,
//! `FadeRing2Colors`) render in floating point at the control surface and so
//! keep only their names here.

use vstd::prelude::*;

use crate::frame::Pixel;
use crate::model::{spec_poofed, Elder};
use rand::Rng;

verus! {

/// Relies on rand::thread_rng and rand::Rng::gen_range: a uniform draw from
/// `0 .. n`; the call panics only on an empty range, which the precondition
/// rules out.
#[verifier::external_body]
fn random_below(n: usize) -> (r: usize)
    requires
        0 < n,
    ensures
        r < n,
{
    rand::thread_rng().gen_range(0..n)
}

/// The color a solo-light effect gives elder `j` when elder `index` is the
/// lit one: magenta for the chosen elder, dark for the rest.
pub open spec fn spec_solo_color(j: int, index: int) -> Pixel {
    if j == index {
        Pixel { r: 255u8, g: 0u8, b: 255u8 }
    } else {
        Pixel { r: 0u8, g: 0u8, b: 0u8 }
    }
}

/// Paint every crane light with `color`; nothing else changes.
pub fn set_all_lights(elders: &mut Vec<Elder>, color: Pixel)
    ensures
        final(elders)@.len() == old(elders)@.len(),
        forall|j: int|
            0 <= j < old(elders)@.len() ==> #[trigger] final(elders)@[j] == (Elder {
                crane_light: color,
                ..old(elders)@[j]
            }),
{
    let n = elders.len();
    let mut i: usize = 0;
    while i < n
        invariant
            n == old(elders)@.len(),
            i <= n,
            elders@.len() == n,
            forall|k: int| i <= k < n ==> #[trigger] elders@[k] == old(elders)@[k],
            forall|k: int|
                0 <= k < i ==> #[trigger] elders@[k] == (Elder {
                    crane_light: color,
                    ..old(elders)@[k]
                }),
        decreases n - i,
    {
        elders[i].crane_light = color;
        i += 1;
    }
}

/// Light elder `index` magenta and darken the rest; nothing else changes.
/// An `index` outside the ring simply darkens every light.
pub fn set_solo_light(elders: &mut Vec<Elder>, index: usize)
    ensures
        final(elders)@.len() == old(elders)@.len(),
        forall|j: int|
            0 <= j < old(elders)@.len() ==> #[trigger] final(elders)@[j] == (Elder {
                crane_light: spec_solo_color(j, index as int),
                ..old(elders)@[j]
            }),
{
    let n = elders.len();
    let mut i: usize = 0;
    while i < n
        invariant
            n == old(elders)@.len(),
            i <= n,
            elders@.len() == n,
            forall|k: int| i <= k < n ==> #[trigger] elders@[k] == old(elders)@[k],
            forall|k: int|
                0 <= k < i ==> #[trigger] elders@[k] == (Elder {
                    crane_light: spec_solo_color(k, index as int),
                    ..old(elders)@[k]
                }),
        decreases n - i,
    {
        elders[i].crane_light = if i == index {
            Pixel { r: 255, g: 0, b: 255 }
        } else {
            Pixel { r: 0, g: 0, b: 0 }
        };
        i += 1;
    }
}

/// Ask the chosen solenoids of every elder for state `value`.
pub fn poof_all(elders: &mut Vec<Elder>, wide: bool, narrow: bool, value: bool)
    ensures
        final(elders)@.len() == old(elders)@.len(),
        forall|j: int|
            0 <= j < old(elders)@.len() ==> #[trigger] final(elders)@[j] == (Elder {
                poofer_wide: if wide {
                    spec_poofed(old(elders)@[j].poofer_wide, value)
                } else {
                    old(elders)@[j].poofer_wide
                },
                poofer_narrow: if narrow {
                    spec_poofed(old(elders)@[j].poofer_narrow, value)
                } else {
                    old(elders)@[j].poofer_narrow
                },
                ..old(elders)@[j]
            }),
{
    let n = elders.len();
    let mut i: usize = 0;
    while i < n
        invariant
            n == old(elders)@.len(),
            i <= n,
            elders@.len() == n,
            forall|k: int| i <= k < n ==> #[trigger] elders@[k] == old(elders)@[k],
            forall|k: int|
                0 <= k < i ==> #[trigger] elders@[k] == (Elder {
                    poofer_wide: if wide {
                        spec_poofed(old(elders)@[k].poofer_wide, value)
                    } else {
                        old(elders)@[k].poofer_wide
                    },
                    poofer_narrow: if narrow {
                        spec_poofed(old(elders)@[k].poofer_narrow, value)
                    } else {
                        old(elders)@[k].poofer_narrow
                    },
                    ..old(elders)@[k]
                }),
        decreases n - i,
    {
        let elder = &mut elders[i];
        if wide {
            elder.poofer_wide.poof(value);
        }
        if narrow {
            elder.poofer_narrow.poof(value);
        }
        i += 1;
    }
}

/// Ask both solenoids of elder `index` for state `value`; no other elder is
/// touched.
pub fn poof_solo(elders: &mut Vec<Elder>, index: usize, value: bool)
    requires
        index < old(elders)@.len(),
    ensures
        final(elders)@.len() == old(elders)@.len(),
        final(elders)@[index as int] == (Elder {
            poofer_wide: spec_poofed(old(elders)@[index as int].poofer_wide, value),
            poofer_narrow: spec_poofed(old(elders)@[index as int].poofer_narrow, value),
            ..old(elders)@[index as int]
        }),
        forall|j: int|
            0 <= j < old(elders)@.len() && j != index ==> #[trigger] final(elders)@[j] == old(
                elders,
            )@[j],
{
    let elder = &mut elders[index];
    elder.poofer_wide.poof(value);
    elder.poofer_narrow.poof(value);
}

/// Ask the chosen solenoids of every elder for "on exactly at `index`": the
/// step of the ring effects. An `index` outside the ring turns them all off.
pub fn poof_ring_select(elders: &mut Vec<Elder>, index: usize, wide: bool, narrow: bool)
    ensures
        final(elders)@.len() == old(elders)@.len(),
        forall|j: int|
            0 <= j < old(elders)@.len() ==> #[trigger] final(elders)@[j] == (Elder {
                poofer_wide: if wide {
                    spec_poofed(old(elders)@[j].poofer_wide, j == index as int)
                } else {
                    old(elders)@[j].poofer_wide
                },
                poofer_narrow: if narrow {
                    spec_poofed(old(elders)@[j].poofer_narrow, j == index as int)
                } else {
                    old(elders)@[j].poofer_narrow
                },
                ..old(elders)@[j]
            }),
{
    let n = elders.len();
    let mut i: usize = 0;
    while i < n
        invariant
            n == old(elders)@.len(),
            i <= n,
            elders@.len() == n,
            forall|k: int| i <= k < n ==> #[trigger] elders@[k] == old(elders)@[k],
            forall|k: int|
                0 <= k < i ==> #[trigger] elders@[k] == (Elder {
                    poofer_wide: if wide {
                        spec_poofed(old(elders)@[k].poofer_wide, k == index as int)
                    } else {
                        old(elders)@[k].poofer_wide
                    },
                    poofer_narrow: if narrow {
                        spec_poofed(old(elders)@[k].poofer_narrow, k == index as int)
                    } else {
                        old(elders)@[k].poofer_narrow
                    },
                    ..old(elders)@[k]
                }),
        decreases n - i,
    {
        let elder = &mut elders[i];
        let value = i == index;
        if wide {
            elder.poofer_wide.poof(value);
        }
        if narrow {
            elder.poofer_narrow.poof(value);
        }
        i += 1;
    }
}

/// Where a ring effect stands at `t_ms` milliseconds: one step every
/// `step_ms`, walking round a ring of `len` elders.
pub open spec fn spec_ring_index(t_ms: u64, step_ms: u64, len: int) -> int
    recommends
        step_ms > 0,
        len > 0,
{
    (t_ms as int / step_ms as int) % len
}

/// A solid cool white on every light: 0.7, 0.7, 1.0 scaled to 8 bits.
#[derive(Clone, Copy, Debug)]
pub struct Solid;

impl Solid {
    pub fn name(&self) -> (r: String)
        ensures
            r@ == "Solid"@,
    {
        String::from_str("Solid")
    }

    pub fn render(&mut self, elders: &mut Vec<Elder>, program_time_ms: u64, effect_time_ms: u64)
        ensures
            final(elders)@.len() == old(elders)@.len(),
            forall|j: int|
                0 <= j < old(elders)@.len() ==> #[trigger] final(elders)@[j] == (Elder {
                    crane_light: Pixel { r: 178u8, g: 178u8, b: 255u8 },
                    ..old(elders)@[j]
                }),
    {
        set_all_lights(elders, Pixel { r: 178, g: 178, b: 255 });
    }
}

/// Every poofer open, wide and narrow alike, for as long as the effect runs.
#[derive(Clone, Copy, Debug)]
pub struct AllPoof;

impl AllPoof {
    pub fn name(&self) -> (r: String)
        ensures
            r@ == "All Poof"@,
    {
        String::from_str("All Poof")
    }

    pub fn render(&mut self, elders: &mut Vec<Elder>, program_time_ms: u64, effect_time_ms: u64)
        ensures
            final(elders)@.len() == old(elders)@.len(),
            forall|j: int|
                0 <= j < old(elders)@.len() ==> #[trigger] final(elders)@[j] == (Elder {
                    poofer_wide: spec_poofed(old(elders)@[j].poofer_wide, true),
                    poofer_narrow: spec_poofed(old(elders)@[j].poofer_narrow, true),
                    ..old(elders)@[j]
                }),
    {
        poof_all(elders, true, true, true);
    }
}

/// Every wide poofer open for the first 300 milliseconds of the effect.
#[derive(Clone, Copy, Debug)]
pub struct AllPoofWide;

impl AllPoofWide {
    pub fn name(&self) -> (r: String)
        ensures
            r@ == "All Poof Wide"@,
    {
        String::from_str("All Poof Wide")
    }

    pub fn render(&mut self, elders: &mut Vec<Elder>, program_time_ms: u64, effect_time_ms: u64)
        ensures
            final(elders)@.len() == old(elders)@.len(),
            forall|j: int|
                0 <= j < old(elders)@.len() ==> #[trigger] final(elders)@[j] == (Elder {
                    poofer_wide: spec_poofed(old(elders)@[j].poofer_wide, effect_time_ms < 300),
                    ..old(elders)@[j]
                }),
    {
        poof_all(elders, true, false, effect_time_ms < 300);
    }
}

/// Every narrow poofer open for the first 300 milliseconds of the effect.
#[derive(Clone, Copy, Debug)]
pub struct AllPoofNarrow;

impl AllPoofNarrow {
    pub fn name(&self) -> (r: String)
        ensures
            r@ == "All Poof Narrow"@,
    {
        String::from_str("All Poof Narrow")
    }

    pub fn render(&mut self, elders: &mut Vec<Elder>, program_time_ms: u64, effect_time_ms: u64)
        ensures
            final(elders)@.len() == old(elders)@.len(),
            forall|j: int|
                0 <= j < old(elders)@.len() ==> #[trigger] final(elders)@[j] == (Elder {
                    poofer_narrow: spec_poofed(old(elders)@[j].poofer_narrow, effect_time_ms < 300),
                    ..old(elders)@[j]
                }),
    {
        poof_all(elders, false, true, effect_time_ms < 300);
    }
}

/// A blast walking round the ring four steps a second, both solenoids.
#[derive(Clone, Copy, Debug)]
pub struct PoofRing;

impl PoofRing {
    pub fn name(&self) -> (r: String)
        ensures
            r@ == "Poof Ring"@,
    {
        String::from_str("Poof Ring")
    }

    pub fn render(&mut self, elders: &mut Vec<Elder>, program_time_ms: u64, effect_time_ms: u64)
        requires
            old(elders)@.len() > 0,
        ensures
            final(elders)@.len() == old(elders)@.len(),
            forall|j: int|
                0 <= j < old(elders)@.len() ==> #[trigger] final(elders)@[j] == (Elder {
                    poofer_wide: spec_poofed(
                        old(elders)@[j].poofer_wide,
                        j == spec_ring_index(program_time_ms, 250, old(elders)@.len() as int),
                    ),
                    poofer_narrow: spec_poofed(
                        old(elders)@[j].poofer_narrow,
                        j == spec_ring_index(program_time_ms, 250, old(elders)@.len() as int),
                    ),
                    ..old(elders)@[j]
                }),
    {
        let index = ((program_time_ms / 250) % (elders.len() as u64)) as usize;
        poof_ring_select(elders, index, true, true);
    }
}

/// A blast walking round the ring twice a second, wide solenoids only.
#[derive(Clone, Copy, Debug)]
pub struct PoofRingWide;

impl PoofRingWide {
    pub fn name(&self) -> (r: String)
        ensures
            r@ == "Poof Ring Wide"@,
    {
        String::from_str("Poof Ring Wide")
    }

    pub fn render(&mut self, elders: &mut Vec<Elder>, program_time_ms: u64, effect_time_ms: u64)
        requires
            old(elders)@.len() > 0,
        ensures
            final(elders)@.len() == old(elders)@.len(),
            forall|j: int|
                0 <= j < old(elders)@.len() ==> #[trigger] final(elders)@[j] == (Elder {
                    poofer_wide: spec_poofed(
                        old(elders)@[j].poofer_wide,
                        j == spec_ring_index(program_time_ms, 500, old(elders)@.len() as int),
                    ),
                    ..old(elders)@[j]
                }),
    {
        let index = ((program_time_ms / 500) % (elders.len() as u64)) as usize;
        poof_ring_select(elders, index, true, false);
    }
}

/// A blast walking round the ring twice a second, narrow solenoids only.
#[derive(Clone, Copy, Debug)]
pub struct PoofRingNarrow;

impl PoofRingNarrow {
    pub fn name(&self) -> (r: String)
        ensures
            r@ == "Poof Ring Narrow"@,
    {
        String::from_str("Poof Ring Narrow")
    }

    pub fn render(&mut self, elders: &mut Vec<Elder>, program_time_ms: u64, effect_time_ms: u64)
        requires
            old(elders)@.len() > 0,
        ensures
            final(elders)@.len() == old(elders)@.len(),
            forall|j: int|
                0 <= j < old(elders)@.len() ==> #[trigger] final(elders)@[j] == (Elder {
                    poofer_narrow: spec_poofed(
                        old(elders)@[j].poofer_narrow,
                        j == spec_ring_index(program_time_ms, 500, old(elders)@.len() as int),
                    ),
                    ..old(elders)@[j]
                }),
    {
        let index = ((program_time_ms / 500) % (elders.len() as u64)) as usize;
        poof_ring_select(elders, index, false, true);
    }
}


/// Station light 1: elder 1 magenta, every other light dark.
#[derive(Clone, Copy, Debug)]
pub struct Light1;

impl Light1 {
    pub fn name(&self) -> (r: String)
        ensures
            r@ == "Light 1"@,
    {
        String::from_str("Light 1")
    }

    pub fn render(&mut self, elders: &mut Vec<Elder>, program_time_ms: u64, effect_time_ms: u64)
        ensures
            final(elders)@.len() == old(elders)@.len(),
            forall|j: int|
                0 <= j < old(elders)@.len() ==> #[trigger] final(elders)@[j] == (Elder {
                    crane_light: spec_solo_color(j, 0),
                    ..old(elders)@[j]
                }),
    {
        set_solo_light(elders, 0);
    }
}

/// Station light 2: elder 2 magenta, every other light dark.
#[derive(Clone, Copy, Debug)]
pub struct Light2;

impl Light2 {
    pub fn name(&self) -> (r: String)
        ensures
            r@ == "Light 2"@,
    {
        String::from_str("Light 2")
    }

    pub fn render(&mut self, elders: &mut Vec<Elder>, program_time_ms: u64, effect_time_ms: u64)
        ensures
            final(elders)@.len() == old(elders)@.len(),
            forall|j: int|
                0 <= j < old(elders)@.len() ==> #[trigger] final(elders)@[j] == (Elder {
                    crane_light: spec_solo_color(j, 1),
                    ..old(elders)@[j]
                }),
    {
        set_solo_light(elders, 1);
    }
}

/// Station light 3: elder 3 magenta, every other light dark.
#[derive(Clone, Copy, Debug)]
pub struct Light3;

impl Light3 {
    pub fn name(&self) -> (r: String)
        ensures
            r@ == "Light 3"@,
    {
        String::from_str("Light 3")
    }

    pub fn render(&mut self, elders: &mut Vec<Elder>, program_time_ms: u64, effect_time_ms: u64)
        ensures
            final(elders)@.len() == old(elders)@.len(),
            forall|j: int|
                0 <= j < old(elders)@.len() ==> #[trigger] final(elders)@[j] == (Elder {
                    crane_light: spec_solo_color(j, 2),
                    ..old(elders)@[j]
                }),
    {
        set_solo_light(elders, 2);
    }
}

/// Station light 4: elder 4 magenta, every other light dark.
#[derive(Clone, Copy, Debug)]
pub struct Light4;

impl Light4 {
    pub fn name(&self) -> (r: String)
        ensures
            r@ == "Light 4"@,
    {
        String::from_str("Light 4")
    }

    pub fn render(&mut self, elders: &mut Vec<Elder>, program_time_ms: u64, effect_time_ms: u64)
        ensures
            final(elders)@.len() == old(elders)@.len(),
            forall|j: int|
                0 <= j < old(elders)@.len() ==> #[trigger] final(elders)@[j] == (Elder {
                    crane_light: spec_solo_color(j, 3),
                    ..old(elders)@[j]
                }),
    {
        set_solo_light(elders, 3);
    }
}

/// Station light 5: elder 5 magenta, every other light dark.
#[derive(Clone, Copy, Debug)]
pub struct Light5;

impl Light5 {
    pub fn name(&self) -> (r: String)
        ensures
            r@ == "Light 5"@,
    {
        String::from_str("Light 5")
    }

    pub fn render(&mut self, elders: &mut Vec<Elder>, program_time_ms: u64, effect_time_ms: u64)
        ensures
            final(elders)@.len() == old(elders)@.len(),
            forall|j: int|
                0 <= j < old(elders)@.len() ==> #[trigger] final(elders)@[j] == (Elder {
                    crane_light: spec_solo_color(j, 4),
                    ..old(elders)@[j]
                }),
    {
        set_solo_light(elders, 4);
    }
}

/// Station light 6: elder 6 magenta, every other light dark.
#[derive(Clone, Copy, Debug)]
pub struct Light6;

impl Light6 {
    pub fn name(&self) -> (r: String)
        ensures
            r@ == "Light 6"@,
    {
        String::from_str("Light 6")
    }

    pub fn render(&mut self, elders: &mut Vec<Elder>, program_time_ms: u64, effect_time_ms: u64)
        ensures
            final(elders)@.len() == old(elders)@.len(),
            forall|j: int|
                0 <= j < old(elders)@.len() ==> #[trigger] final(elders)@[j] == (Elder {
                    crane_light: spec_solo_color(j, 5),
                    ..old(elders)@[j]
                }),
    {
        set_solo_light(elders, 5);
    }
}

/// Station light 7: elder 7 magenta, every other light dark.
#[derive(Clone, Copy, Debug)]
pub struct Light7;

impl Light7 {
    pub fn name(&self) -> (r: String)
        ensures
            r@ == "Light 7"@,
    {
        String::from_str("Light 7")
    }

    pub fn render(&mut self, elders: &mut Vec<Elder>, program_time_ms: u64, effect_time_ms: u64)
        ensures
            final(elders)@.len() == old(elders)@.len(),
            forall|j: int|
                0 <= j < old(elders)@.len() ==> #[trigger] final(elders)@[j] == (Elder {
                    crane_light: spec_solo_color(j, 6),
                    ..old(elders)@[j]
                }),
    {
        set_solo_light(elders, 6);
    }
}

/// Station light 8: elder 8 magenta, every other light dark.
#[derive(Clone, Copy, Debug)]
pub struct Light8;

impl Light8 {
    pub fn name(&self) -> (r: String)
        ensures
            r@ == "Light 8"@,
    {
        String::from_str("Light 8")
    }

    pub fn render(&mut self, elders: &mut Vec<Elder>, program_time_ms: u64, effect_time_ms: u64)
        ensures
            final(elders)@.len() == old(elders)@.len(),
            forall|j: int|
                0 <= j < old(elders)@.len() ==> #[trigger] final(elders)@[j] == (Elder {
                    crane_light: spec_solo_color(j, 7),
                    ..old(elders)@[j]
                }),
    {
        set_solo_light(elders, 7);
    }
}

/// Station light 9: elder 9 magenta, every other light dark.
#[derive(Clone, Copy, Debug)]
pub struct Light9;

impl Light9 {
    pub fn name(&self) -> (r: String)
        ensures
            r@ == "Light 9"@,
    {
        String::from_str("Light 9")
    }

    pub fn render(&mut self, elders: &mut Vec<Elder>, program_time_ms: u64, effect_time_ms: u64)
        ensures
            final(elders)@.len() == old(elders)@.len(),
            forall|j: int|
                0 <= j < old(elders)@.len() ==> #[trigger] final(elders)@[j] == (Elder {
                    crane_light: spec_solo_color(j, 8),
                    ..old(elders)@[j]
                }),
    {
        set_solo_light(elders, 8);
    }
}

/// A single timed blast from elder 1: both solenoids open for the first
/// 300 milliseconds of the effect.
#[derive(Clone, Copy, Debug)]
pub struct Poof1;

impl Poof1 {
    pub fn name(&self) -> (r: String)
        ensures
            r@ == "Poof 1"@,
    {
        String::from_str("Poof 1")
    }

    pub fn render(&mut self, elders: &mut Vec<Elder>, program_time_ms: u64, effect_time_ms: u64)
        requires
            old(elders)@.len() > 0,
        ensures
            final(elders)@.len() == old(elders)@.len(),
            final(elders)@[0] == (Elder {
                poofer_wide: spec_poofed(old(elders)@[0].poofer_wide, effect_time_ms < 300),
                poofer_narrow: spec_poofed(
                    old(elders)@[0].poofer_narrow,
                    effect_time_ms < 300,
                ),
                ..old(elders)@[0]
            }),
            forall|j: int|
                0 <= j < old(elders)@.len() && j != 0 ==> #[trigger] final(elders)@[j] == old(
                    elders,
                )@[j],
    {
        poof_solo(elders, 0, effect_time_ms < 300);
    }
}

/// A single timed blast from elder 2: both solenoids open for the first
/// 300 milliseconds of the effect.
#[derive(Clone, Copy, Debug)]
pub struct Poof2;

impl Poof2 {
    pub fn name(&self) -> (r: String)
        ensures
            r@ == "Poof 2"@,
    {
        String::from_str("Poof 2")
    }

    pub fn render(&mut self, elders: &mut Vec<Elder>, program_time_ms: u64, effect_time_ms: u64)
        requires
            old(elders)@.len() > 1,
        ensures
            final(elders)@.len() == old(elders)@.len(),
            final(elders)@[1] == (Elder {
                poofer_wide: spec_poofed(old(elders)@[1].poofer_wide, effect_time_ms < 300),
                poofer_narrow: spec_poofed(
                    old(elders)@[1].poofer_narrow,
                    effect_time_ms < 300,
                ),
                ..old(elders)@[1]
            }),
            forall|j: int|
                0 <= j < old(elders)@.len() && j != 1 ==> #[trigger] final(elders)@[j] == old(
                    elders,
                )@[j],
    {
        poof_solo(elders, 1, effect_time_ms < 300);
    }
}

/// A single timed blast from elder 3: both solenoids open for the first
/// 300 milliseconds of the effect.
#[derive(Clone, Copy, Debug)]
pub struct Poof3;

impl Poof3 {
    pub fn name(&self) -> (r: String)
        ensures
            r@ == "Poof 3"@,
    {
        String::from_str("Poof 3")
    }

    pub fn render(&mut self, elders: &mut Vec<Elder>, program_time_ms: u64, effect_time_ms: u64)
        requires
            old(elders)@.len() > 2,
        ensures
            final(elders)@.len() == old(elders)@.len(),
            final(elders)@[2] == (Elder {
                poofer_wide: spec_poofed(old(elders)@[2].poofer_wide, effect_time_ms < 300),
                poofer_narrow: spec_poofed(
                    old(elders)@[2].poofer_narrow,
                    effect_time_ms < 300,
                ),
                ..old(elders)@[2]
            }),
            forall|j: int|
                0 <= j < old(elders)@.len() && j != 2 ==> #[trigger] final(elders)@[j] == old(
                    elders,
                )@[j],
    {
        poof_solo(elders, 2, effect_time_ms < 300);
    }
}

/// A single timed blast from elder 4: both solenoids open for the first
/// 300 milliseconds of the effect.
#[derive(Clone, Copy, Debug)]
pub struct Poof4;

impl Poof4 {
    pub fn name(&self) -> (r: String)
        ensures
            r@ == "Poof 4"@,
    {
        String::from_str("Poof 4")
    }

    pub fn render(&mut self, elders: &mut Vec<Elder>, program_time_ms: u64, effect_time_ms: u64)
        requires
            old(elders)@.len() > 3,
        ensures
            final(elders)@.len() == old(elders)@.len(),
            final(elders)@[3] == (Elder {
                poofer_wide: spec_poofed(old(elders)@[3].poofer_wide, effect_time_ms < 300),
                poofer_narrow: spec_poofed(
                    old(elders)@[3].poofer_narrow,
                    effect_time_ms < 300,
                ),
                ..old(elders)@[3]
            }),
            forall|j: int|
                0 <= j < old(elders)@.len() && j != 3 ==> #[trigger] final(elders)@[j] == old(
                    elders,
                )@[j],
    {
        poof_solo(elders, 3, effect_time_ms < 300);
    }
}

/// A single timed blast from elder 5: both solenoids open for the first
/// 300 milliseconds of the effect.
#[derive(Clone, Copy, Debug)]
pub struct Poof5;

impl Poof5 {
    pub fn name(&self) -> (r: String)
        ensures
            r@ == "Poof 5"@,
    {
        String::from_str("Poof 5")
    }

    pub fn render(&mut self, elders: &mut Vec<Elder>, program_time_ms: u64, effect_time_ms: u64)
        requires
            old(elders)@.len() > 4,
        ensures
            final(elders)@.len() == old(elders)@.len(),
            final(elders)@[4] == (Elder {
                poofer_wide: spec_poofed(old(elders)@[4].poofer_wide, effect_time_ms < 300),
                poofer_narrow: spec_poofed(
                    old(elders)@[4].poofer_narrow,
                    effect_time_ms < 300,
                ),
                ..old(elders)@[4]
            }),
            forall|j: int|
                0 <= j < old(elders)@.len() && j != 4 ==> #[trigger] final(elders)@[j] == old(
                    elders,
                )@[j],
    {
        poof_solo(elders, 4, effect_time_ms < 300);
    }
}

/// A single timed blast from elder 6: both solenoids open for the first
/// 300 milliseconds of the effect.
#[derive(Clone, Copy, Debug)]
pub struct Poof6;

impl Poof6 {
    pub fn name(&self) -> (r: String)
        ensures
            r@ == "Poof 6"@,
    {
        String::from_str("Poof 6")
    }

    pub fn render(&mut self, elders: &mut Vec<Elder>, program_time_ms: u64, effect_time_ms: u64)
        requires
            old(elders)@.len() > 5,
        ensures
            final(elders)@.len() == old(elders)@.len(),
            final(elders)@[5] == (Elder {
                poofer_wide: spec_poofed(old(elders)@[5].poofer_wide, effect_time_ms < 300),
                poofer_narrow: spec_poofed(
                    old(elders)@[5].poofer_narrow,
                    effect_time_ms < 300,
                ),
                ..old(elders)@[5]
            }),
            forall|j: int|
                0 <= j < old(elders)@.len() && j != 5 ==> #[trigger] final(elders)@[j] == old(
                    elders,
                )@[j],
    {
        poof_solo(elders, 5, effect_time_ms < 300);
    }
}

/// A single timed blast from elder 7: both solenoids open for the first
/// 300 milliseconds of the effect.
#[derive(Clone, Copy, Debug)]
pub struct Poof7;

impl Poof7 {
    pub fn name(&self) -> (r: String)
        ensures
            r@ == "Poof 7"@,
    {
        String::from_str("Poof 7")
    }

    pub fn render(&mut self, elders: &mut Vec<Elder>, program_time_ms: u64, effect_time_ms: u64)
        requires
            old(elders)@.len() > 6,
        ensures
            final(elders)@.len() == old(elders)@.len(),
            final(elders)@[6] == (Elder {
                poofer_wide: spec_poofed(old(elders)@[6].poofer_wide, effect_time_ms < 300),
                poofer_narrow: spec_poofed(
                    old(elders)@[6].poofer_narrow,
                    effect_time_ms < 300,
                ),
                ..old(elders)@[6]
            }),
            forall|j: int|
                0 <= j < old(elders)@.len() && j != 6 ==> #[trigger] final(elders)@[j] == old(
                    elders,
                )@[j],
    {
        poof_solo(elders, 6, effect_time_ms < 300);
    }
}

/// A single timed blast from elder 8: both solenoids open for the first
/// 300 milliseconds of the effect.
#[derive(Clone, Copy, Debug)]
pub struct Poof8;

impl Poof8 {
    pub fn name(&self) -> (r: String)
        ensures
            r@ == "Poof 8"@,
    {
        String::from_str("Poof 8")
    }

    pub fn render(&mut self, elders: &mut Vec<Elder>, program_time_ms: u64, effect_time_ms: u64)
        requires
            old(elders)@.len() > 7,
        ensures
            final(elders)@.len() == old(elders)@.len(),
            final(elders)@[7] == (Elder {
                poofer_wide: spec_poofed(old(elders)@[7].poofer_wide, effect_time_ms < 300),
                poofer_narrow: spec_poofed(
                    old(elders)@[7].poofer_narrow,
                    effect_time_ms < 300,
                ),
                ..old(elders)@[7]
            }),
            forall|j: int|
                0 <= j < old(elders)@.len() && j != 7 ==> #[trigger] final(elders)@[j] == old(
                    elders,
                )@[j],
    {
        poof_solo(elders, 7, effect_time_ms < 300);
    }
}

/// A single timed blast from elder 9: both solenoids open for the first
/// 300 milliseconds of the effect.
#[derive(Clone, Copy, Debug)]
pub struct Poof9;

impl Poof9 {
    pub fn name(&self) -> (r: String)
        ensures
            r@ == "Poof 9"@,
    {
        String::from_str("Poof 9")
    }

    pub fn render(&mut self, elders: &mut Vec<Elder>, program_time_ms: u64, effect_time_ms: u64)
        requires
            old(elders)@.len() > 8,
        ensures
            final(elders)@.len() == old(elders)@.len(),
            final(elders)@[8] == (Elder {
                poofer_wide: spec_poofed(old(elders)@[8].poofer_wide, effect_time_ms < 300),
                poofer_narrow: spec_poofed(
                    old(elders)@[8].poofer_narrow,
                    effect_time_ms < 300,
                ),
                ..old(elders)@[8]
            }),
            forall|j: int|
                0 <= j < old(elders)@.len() && j != 8 ==> #[trigger] final(elders)@[j] == old(
                    elders,
                )@[j],
    {
        poof_solo(elders, 8, effect_time_ms < 300);
    }
}

/// Bounded products stay bounded.
proof fn lemma_mul_le(a: int, b: int, amax: int, bmax: int)
    by (nonlinear_arith)
    requires
        0 <= a <= amax,
        0 <= b <= bmax,
    ensures
        a * b <= amax * bmax,
{
}

/// An eight-bit share of a fraction below one is itself below 256.
proof fn lemma_level_bound(num: int, den: int)
    by (nonlinear_arith)
    requires
        0 < den,
        0 <= num < den,
    ensures
        0 <= 255 * num / den <= 255,
{
}

/// How far elder `i` stands through the 20-second color cycle at `t_ms`,
/// as an eight-bit level: the cycle phase plus `i / len` of a turn,
/// wrapped, then scaled to `0 ..= 255`.
pub open spec fn spec_cycle_level(t_ms: u64, i: int, len: int) -> int
    recommends
        0 < len,
{
    255 * (((t_ms as int % 20000) * len + i * 20000) % (20000 * len)) / (20000 * len)
}

/// Compute [`spec_cycle_level`] for elder `i` of `len`.
fn cycle_level(t_ms: u64, i: usize, len: usize) -> (r: u8)
    requires
        0 < len <= 4096,
        i < len,
    ensures
        r == spec_cycle_level(t_ms, i as int, len as int),
{
    let len64 = len as u64;
    let phase = t_ms % 20000;
    proof {
        lemma_mul_le(phase as int, len64 as int, 19999, 4096);
        lemma_mul_le(i as int, 20000, 4095, 20000);
    }
    let den = 20000 * len64;
    let num = (phase * len64 + (i as u64) * 20000) % den;
    proof {
        lemma_level_bound(num as int, den as int);
    }
    ((255 * num) / den) as u8
}

/// A cross-fade from red to blue walking round the ring over twenty
/// seconds: each light's blue level is its cycle level, its red level the
/// complement; green is left as the previous effect had it.
#[derive(Clone, Copy, Debug)]
pub struct RedToBlue;

impl RedToBlue {
    pub fn name(&self) -> (r: String)
        ensures
            r@ == "Red to Blue"@,
    {
        String::from_str("Red to Blue")
    }

    pub fn render(&mut self, elders: &mut Vec<Elder>, program_time_ms: u64, effect_time_ms: u64)
        requires
            0 < old(elders)@.len() <= 4096,
        ensures
            final(elders)@.len() == old(elders)@.len(),
            forall|j: int|
                0 <= j < old(elders)@.len() ==> #[trigger] final(elders)@[j] == (Elder {
                    crane_light: Pixel {
                        r: (255 - spec_cycle_level(
                            program_time_ms,
                            j,
                            old(elders)@.len() as int,
                        )) as u8,
                        g: old(elders)@[j].crane_light.g,
                        b: spec_cycle_level(program_time_ms, j, old(elders)@.len() as int) as u8,
                    },
                    ..old(elders)@[j]
                }),
    {
        let n = elders.len();
        let mut i: usize = 0;
        while i < n
            invariant
                n == old(elders)@.len(),
                0 < n <= 4096,
                i <= n,
                elders@.len() == n,
                forall|k: int| i <= k < n ==> #[trigger] elders@[k] == old(elders)@[k],
                forall|k: int|
                    0 <= k < i ==> #[trigger] elders@[k] == (Elder {
                        crane_light: Pixel {
                            r: (255 - spec_cycle_level(program_time_ms, k, n as int)) as u8,
                            g: old(elders)@[k].crane_light.g,
                            b: spec_cycle_level(program_time_ms, k, n as int) as u8,
                        },
                        ..old(elders)@[k]
                    }),
            decreases n - i,
        {
            let level = cycle_level(program_time_ms, i, n);
            let g = elders[i].crane_light.g;
            elders[i].crane_light = Pixel { r: 255 - level, g, b: level };
            i += 1;
        }
    }
}

/// A cross-fade from green to blue walking round the ring over twenty
/// seconds; red is left as the previous effect had it.
#[derive(Clone, Copy, Debug)]
pub struct GreenToBlue;

impl GreenToBlue {
    pub fn name(&self) -> (r: String)
        ensures
            r@ == "Green to Blue"@,
    {
        String::from_str("Green to Blue")
    }

    pub fn render(&mut self, elders: &mut Vec<Elder>, program_time_ms: u64, effect_time_ms: u64)
        requires
            0 < old(elders)@.len() <= 4096,
        ensures
            final(elders)@.len() == old(elders)@.len(),
            forall|j: int|
                0 <= j < old(elders)@.len() ==> #[trigger] final(elders)@[j] == (Elder {
                    crane_light: Pixel {
                        r: old(elders)@[j].crane_light.r,
                        g: (255 - spec_cycle_level(
                            program_time_ms,
                            j,
                            old(elders)@.len() as int,
                        )) as u8,
                        b: spec_cycle_level(program_time_ms, j, old(elders)@.len() as int) as u8,
                    },
                    ..old(elders)@[j]
                }),
    {
        let n = elders.len();
        let mut i: usize = 0;
        while i < n
            invariant
                n == old(elders)@.len(),
                0 < n <= 4096,
                i <= n,
                elders@.len() == n,
                forall|k: int| i <= k < n ==> #[trigger] elders@[k] == old(elders)@[k],
                forall|k: int|
                    0 <= k < i ==> #[trigger] elders@[k] == (Elder {
                        crane_light: Pixel {
                            r: old(elders)@[k].crane_light.r,
                            g: (255 - spec_cycle_level(program_time_ms, k, n as int)) as u8,
                            b: spec_cycle_level(program_time_ms, k, n as int) as u8,
                        },
                        ..old(elders)@[k]
                    }),
            decreases n - i,
        {
            let level = cycle_level(program_time_ms, i, n);
            let r = elders[i].crane_light.r;
            elders[i].crane_light = Pixel { r, g: 255 - level, b: level };
            i += 1;
        }
    }
}

/// The brightness of the elder fading in at `t_ms`: how far through its
/// two-second slot the fade stands, as an eight-bit level.
pub open spec fn spec_fade_in_level(t_ms: u64) -> int {
    255 * (t_ms as int % 2000) / 2000
}

/// The cool-white pixel at `level`: 0.7 of the level on red and green, the
/// full level on blue.
pub open spec fn spec_fade_pixel(level: int) -> Pixel
    recommends
        0 <= level <= 255,
{
    Pixel { r: (level * 178 / 255) as u8, g: (level * 178 / 255) as u8, b: level as u8 }
}

/// The elder whose two-second fade slot contains `t_ms`.
pub open spec fn spec_fade_in_index(t_ms: u64) -> int {
    (t_ms as int % 20000) / 2000
}

/// One elder fades out while its neighbour fades in, one pair every two
/// seconds round a twenty-second cycle; the other lights are left alone.
#[derive(Clone, Copy, Debug)]
pub struct FadePairs;

impl FadePairs {
    pub fn name(&self) -> (r: String)
        ensures
            r@ == "Fade Pairs"@,
    {
        String::from_str("Fade Pairs")
    }

    pub fn render(&mut self, elders: &mut Vec<Elder>, program_time_ms: u64, effect_time_ms: u64)
        requires
            0 < old(elders)@.len(),
        ensures
            final(elders)@.len() == old(elders)@.len(),
            forall|j: int|
                0 <= j < old(elders)@.len() ==> #[trigger] final(elders)@[j] == (Elder {
                    crane_light: ({
                        let fi = spec_fade_in_index(program_time_ms);
                        let fo = (fi + 1) % old(elders)@.len() as int;
                        let level = spec_fade_in_level(program_time_ms);
                        if j == fi {
                            spec_fade_pixel(255 - level)
                        } else if j == fo {
                            spec_fade_pixel(level)
                        } else {
                            old(elders)@[j].crane_light
                        }
                    }),
                    ..old(elders)@[j]
                }),
    {
        let n = elders.len();
        let fade_in_index = ((program_time_ms % 20000) / 2000) as usize;
        let fade_out_index = (fade_in_index + 1) % n;
        let level8 = ((255 * (program_time_ms % 2000)) / 2000) as u8;
        let fade_in = fade_pixel(level8);
        let fade_out = fade_pixel(255 - level8);
        let mut i: usize = 0;
        while i < n
            invariant
                n == old(elders)@.len(),
                0 < n,
                i <= n,
                elders@.len() == n,
                fade_in_index == spec_fade_in_index(program_time_ms),
                fade_out_index == (spec_fade_in_index(program_time_ms) + 1) % n as int,
                level8 == spec_fade_in_level(program_time_ms),
                fade_in == spec_fade_pixel(level8 as int),
                fade_out == spec_fade_pixel(255 - level8),
                forall|k: int| i <= k < n ==> #[trigger] elders@[k] == old(elders)@[k],
                forall|k: int|
                    0 <= k < i ==> #[trigger] elders@[k] == (Elder {
                        crane_light: if k == fade_in_index as int {
                            fade_out
                        } else if k == fade_out_index as int {
                            fade_in
                        } else {
                            old(elders)@[k].crane_light
                        },
                        ..old(elders)@[k]
                    }),
            decreases n - i,
        {
            if i == fade_in_index {
                elders[i].crane_light = fade_out;
            } else if i == fade_out_index {
                elders[i].crane_light = fade_in;
            }
            i += 1;
        }
    }
}

/// Compute [`spec_fade_pixel`] at `level`.
fn fade_pixel(level: u8) -> (r: Pixel)
    ensures
        r == spec_fade_pixel(level as int),
{
    let scaled = ((level as u32 * 178) / 255) as u8;
    Pixel { r: scaled, g: scaled, b: level }
}

/// A deterministic walk of single narrow blasts: every half second the
/// flame moves four stations round the nine-station ring, for 900 blasts,
/// then rests.
#[derive(Clone, Copy, Debug)]
pub struct Nonagram {
    pub index: usize,
    pub time_ms: u64,
}

impl Nonagram {
    /// Start at the first station, at time zero.
    pub fn new() -> (r: Nonagram)
        ensures
            r.index == 0,
            r.time_ms == 0,
    {
        Nonagram { index: 0, time_ms: 0 }
    }

    pub fn name(&self) -> (r: String)
        ensures
            r@ == "Nonagram"@,
    {
        String::from_str("Nonagram")
    }

    pub fn render(&mut self, elders: &mut Vec<Elder>, program_time_ms: u64, effect_time_ms: u64)
        ensures
            final(self).time_ms == effect_time_ms,
            final(self).index < 9 || final(self).index == 10 || final(self).index == old(
                self,
            ).index,
            final(elders)@.len() == old(elders)@.len(),
            forall|j: int|
                0 <= j < old(elders)@.len() ==> #[trigger] final(elders)@[j] == (Elder {
                    poofer_narrow: spec_poofed(
                        old(elders)@[j].poofer_narrow,
                        j == final(self).index as int,
                    ),
                    ..old(elders)@[j]
                }),
    {
        let t = effect_time_ms;
        let mut i: u64 = 0;
        while i < 900
            invariant
                i <= 900,
                self.time_ms == old(self).time_ms,
                self.index < 9 || self.index == 10 || self.index == old(self).index,
            decreases 900 - i,
        {
            let threshold = i * 500;
            if self.time_ms < threshold && t >= threshold {
                self.index = (self.index % 9 + 4) % 9;
            }
            i += 1;
        }
        if self.time_ms < 450000 && t >= 450000 {
            self.index = 10;
        }
        self.time_ms = t;
        poof_ring_select(elders, self.index, false, true);
    }
}

/// Like [`Nonagram`], but every half-second step moves the single narrow
/// blast to a station drawn at random.
#[derive(Clone, Copy, Debug)]
pub struct RandomPoof {
    pub index: usize,
    pub time_ms: u64,
}

impl RandomPoof {
    /// Start at the first station, at time zero.
    pub fn new() -> (r: RandomPoof)
        ensures
            r.index == 0,
            r.time_ms == 0,
    {
        RandomPoof { index: 0, time_ms: 0 }
    }

    pub fn name(&self) -> (r: String)
        ensures
            r@ == "Random Poof"@,
    {
        String::from_str("Random Poof")
    }

    pub fn render(&mut self, elders: &mut Vec<Elder>, program_time_ms: u64, effect_time_ms: u64)
        ensures
            final(self).time_ms == effect_time_ms,
            final(self).index < 9 || final(self).index == 10 || final(self).index == old(
                self,
            ).index,
            final(elders)@.len() == old(elders)@.len(),
            forall|j: int|
                0 <= j < old(elders)@.len() ==> #[trigger] final(elders)@[j] == (Elder {
                    poofer_narrow: spec_poofed(
                        old(elders)@[j].poofer_narrow,
                        j == final(self).index as int,
                    ),
                    ..old(elders)@[j]
                }),
    {
        let t = effect_time_ms;
        let mut i: u64 = 0;
        while i < 900
            invariant
                i <= 900,
                self.time_ms == old(self).time_ms,
                self.index < 9 || self.index == 10 || self.index == old(self).index,
            decreases 900 - i,
        {
            let threshold = i * 500;
            if self.time_ms < threshold && t >= threshold {
                self.index = random_below(9);
            }
            i += 1;
        }
        if self.time_ms < 450000 && t >= 450000 {
            self.index = 10;
        }
        self.time_ms = t;
        poof_ring_select(elders, self.index, false, true);
    }
}

/// A sinusoidal shimmer over the whole ring; its rendering is floating-point
/// mathematics and runs at the control surface, outside this crate.
#[derive(Clone, Copy, Debug)]
pub struct Pseudorandom;

impl Pseudorandom {
    pub fn name(&self) -> (r: String)
        ensures
            r@ == "Pseudorandom"@,
    {
        String::from_str("Pseudorandom")
    }
}

/// A two-color fade in unison; its rendering is floating-point mathematics
/// and runs at the control surface, outside this crate.
#[derive(Clone, Copy, Debug)]
pub struct Unison2Colors;

impl Unison2Colors {
    pub fn name(&self) -> (r: String)
        ensures
            r@ == "Unison 2 Colors"@,
    {
        String::from_str("Unison 2 Colors")
    }
}

/// A two-color fade walking round the ring; its rendering is floating-point
/// mathematics and runs at the control surface, outside this crate.
#[derive(Clone, Copy, Debug)]
pub struct FadeRing2Colors;

impl FadeRing2Colors {
    pub fn name(&self) -> (r: String)
        ensures
            r@ == "Fade Ring 2 Colors"@,
    {
        String::from_str("Fade Ring 2 Colors")
    }
}

} // verus!
