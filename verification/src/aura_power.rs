//! Which zones of a keyboard are lit in which power state.

use vstd::prelude::*;

use crate::aura_detection::PowerZones;

verus! {

/// Whether a zone is lit while the system starts, is awake, sleeps and
/// shuts down.
#[derive(Debug, Clone, Copy, PartialEq, Eq, Structural)]
pub struct AuraPowerState {
    pub zone: PowerZones,
    pub boot: bool,
    pub awake: bool,
    pub sleep: bool,
    pub shutdown: bool,
}

/// The power states of all zones of a keyboard.
#[derive(Debug, PartialEq, Eq)]
pub struct LaptopAuraPower {
    pub states: Vec<AuraPowerState>,
}

/// The zone that the two switches of an older keyboard stand for: both
/// together, the lightbar alone, and otherwise the keyboard.
pub open spec fn spec_zone_from_flags(keyboard: bool, lightbar: bool) -> PowerZones {
    if keyboard && lightbar {
        PowerZones::KeyboardAndLightbar
    } else if lightbar {
        PowerZones::Lightbar
    } else {
        PowerZones::Keyboard
    }
}

/// The position of the first state of `zone` in a list, or the length of
/// the list where it holds none.
pub open spec fn spec_zone_position(states: Seq<AuraPowerState>, zone: PowerZones) -> int
    decreases states.len(),
{
    if states.len() == 0 {
        0
    } else if states[0].zone == zone {
        0
    } else {
        1 + spec_zone_position(states.skip(1), zone)
    }
}

/// The list with the first state of `zone` set to what `to` says; the list
/// itself where it holds no state of that zone.
pub open spec fn spec_zone_set(
    states: Seq<AuraPowerState>,
    zone: PowerZones,
    to: AuraPowerState,
) -> Seq<AuraPowerState> {
    let at = spec_zone_position(states, zone);
    if at < states.len() {
        states.update(at, AuraPowerState { zone, ..to })
    } else {
        states
    }
}

impl PowerZones {
    /// The zone that the two switches of an older keyboard stand for.
    pub fn from_flags(keyboard: bool, lightbar: bool) -> (zone: PowerZones)
        ensures
            zone == spec_zone_from_flags(keyboard, lightbar),
    {
        if keyboard && lightbar {
            PowerZones::KeyboardAndLightbar
        } else if lightbar {
            PowerZones::Lightbar
        } else {
            PowerZones::Keyboard
        }
    }
}

impl LaptopAuraPower {
    /// The power states of an older keyboard: one zone, never lit while the
    /// system shuts down. A state that is not given is off.
    pub fn old_laptop(
        keyboard: bool,
        lightbar: bool,
        boot: Option<bool>,
        awake: Option<bool>,
        sleep: Option<bool>,
    ) -> (power: Self)
        ensures
            power.states@ == seq![
                AuraPowerState {
                    zone: spec_zone_from_flags(keyboard, lightbar),
                    boot: boot == Some(true),
                    awake: awake == Some(true),
                    sleep: sleep == Some(true),
                    shutdown: false,
                },
            ],
    {
        let state = AuraPowerState {
            zone: PowerZones::from_flags(keyboard, lightbar),
            boot: match boot {
                Some(on) => on,
                None => false,
            },
            awake: match awake {
                Some(on) => on,
                None => false,
            },
            sleep: match sleep {
                Some(on) => on,
                None => false,
            },
            shutdown: false,
        };
        let mut states: Vec<AuraPowerState> = Vec::new();
        states.push(state);
        assert(states@ =~= seq![state]);
        LaptopAuraPower { states }
    }

    /// Sets the first state of `zone` to what `to` says of the four power
    /// states. Nothing changes where the keyboard has no such zone.
    pub fn set_zone(&mut self, zone: PowerZones, to: &AuraPowerState)
        ensures
            final(self).states@ == spec_zone_set(old(self).states@, zone, *to),
    {
        let mut i: usize = 0;
        let ghost all = self.states@;
        assert(all.skip(0) =~= all);
        while i < self.states.len()
            invariant
                i <= self.states@.len(),
                self.states@ == all,
                all == old(self).states@,
                spec_zone_position(all, zone) == i + spec_zone_position(all.skip(i as int), zone),
            decreases self.states@.len() - i,
        {
            assert(all.skip(i as int)[0] == all[i as int]);
            if self.states[i].zone == zone {
                self.states[i] = AuraPowerState {
                    zone,
                    boot: to.boot,
                    awake: to.awake,
                    sleep: to.sleep,
                    shutdown: to.shutdown,
                };
                return ;
            }
            assert(all.skip(i as int).skip(1) =~= all.skip(i + 1));
            i += 1;
        }
    }
}

} // verus!
