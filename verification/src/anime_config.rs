//! Settings of the matrix display: what it shows at system events, and the
//! actions made ready from those settings.

use vstd::prelude::*;

use crate::anime::{AnimeDataBuffer, AnimeType};
use crate::error::AnimeError;
use crate::sequence::AnimeGif;

verus! {

/// Brightness of the matrix display.
#[derive(Debug, Clone, Copy, PartialEq, Eq, Structural)]
pub enum Brightness {
    Off,
    Low,
    Med,
    High,
}

/// The built-in animation shown while the system starts.
#[derive(Debug, Clone, Copy, PartialEq, Eq, Structural)]
pub enum AnimBooting {
    GlitchConstruction,
    StaticEmergence,
}

/// The built-in animation shown while the system is awake.
#[derive(Debug, Clone, Copy, PartialEq, Eq, Structural)]
pub enum AnimAwake {
    BinaryBannerScroll,
    RogLogoGlitch,
}

/// The built-in animation shown while the system sleeps.
#[derive(Debug, Clone, Copy, PartialEq, Eq, Structural)]
pub enum AnimSleeping {
    BannerSwipe,
    Starfield,
}

/// The built-in animation shown while the system shuts down.
#[derive(Debug, Clone, Copy, PartialEq, Eq, Structural)]
pub enum AnimShutdown {
    GlitchOut,
    SeeYa,
}

/// The built-in animation chosen for each system event.
#[derive(Debug, Clone, Copy, PartialEq, Eq, Structural)]
pub struct Animations {
    pub boot: AnimBooting,
    pub awake: AnimAwake,
    pub sleep: AnimSleeping,
    pub shutdown: AnimShutdown,
}

/// The first built-in animation of each kind.
pub open spec fn spec_default_animations() -> Animations {
    Animations {
        boot: AnimBooting::GlitchConstruction,
        awake: AnimAwake::BinaryBannerScroll,
        sleep: AnimSleeping::BannerSwipe,
        shutdown: AnimShutdown::GlitchOut,
    }
}

impl Default for Animations {
    fn default() -> (animations: Self)
        ensures
            animations == spec_default_animations(),
    {
        Animations {
            boot: AnimBooting::GlitchConstruction,
            awake: AnimAwake::BinaryBannerScroll,
            sleep: AnimSleeping::BannerSwipe,
            shutdown: AnimShutdown::GlitchOut,
        }
    }
}

/// What the display is set to do, as it is reported to clients.
#[derive(Debug, Clone, Copy, PartialEq, Eq, Structural)]
pub struct DeviceState {
    pub display_enabled: bool,
    pub display_brightness: Brightness,
    pub builtin_anims_enabled: bool,
    pub builtin_anims: Animations,
    pub off_when_unplugged: bool,
    pub off_when_suspended: bool,
    pub off_when_lid_closed: bool,
    pub brightness_on_battery: Brightness,
}

/// An action made ready for the display.
#[derive(Debug)]
pub enum ActionData {
    /// A sequence of frames.
    Animation(AnimeGif),
    /// A single frame.
    Image(Box<AnimeDataBuffer>),
    /// Nothing is shown for this many nanoseconds.
    Pause(u64),
    AudioEq,
    SystemInfo,
    TimeDate,
    Matrix,
}

/// The settings of the display. `L` is what describes an action before it
/// is made ready: where its picture lies and how it is to be drawn.
#[derive(Debug)]
pub struct AnimeConfig<L> {
    pub model_override: Option<AnimeType>,
    pub system: Vec<L>,
    pub boot: Vec<L>,
    pub wake: Vec<L>,
    pub shutdown: Vec<L>,
    pub display_enabled: bool,
    pub display_brightness: Brightness,
    pub builtin_anims_enabled: bool,
    pub off_when_unplugged: bool,
    pub off_when_suspended: bool,
    pub off_when_lid_closed: bool,
    pub brightness_on_battery: Brightness,
    pub builtin_anims: Animations,
}

impl<L> AnimeConfig<L> {
    /// What the settings say of the display itself.
    pub open spec fn spec_device_state(&self) -> DeviceState {
        DeviceState {
            display_enabled: self.display_enabled,
            display_brightness: self.display_brightness,
            builtin_anims_enabled: self.builtin_anims_enabled,
            builtin_anims: self.builtin_anims,
            off_when_unplugged: self.off_when_unplugged,
            off_when_suspended: self.off_when_suspended,
            off_when_lid_closed: self.off_when_lid_closed,
            brightness_on_battery: self.brightness_on_battery,
        }
    }

    /// What the settings say of the display itself.
    pub fn device_state(&self) -> (state: DeviceState)
        ensures
            state == self.spec_device_state(),
    {
        DeviceState {
            display_enabled: self.display_enabled,
            display_brightness: self.display_brightness,
            builtin_anims_enabled: self.builtin_anims_enabled,
            builtin_anims: self.builtin_anims,
            off_when_unplugged: self.off_when_unplugged,
            off_when_suspended: self.off_when_suspended,
            off_when_lid_closed: self.off_when_lid_closed,
            brightness_on_battery: self.brightness_on_battery,
        }
    }
}

impl<L> Default for AnimeConfig<L> {
    /// Settings without any action: the display is on at medium brightness
    /// and low on battery, shows the built-in animations, and goes off when
    /// unplugged, suspended or closed.
    fn default() -> (config: Self)
        ensures
            config.model_override is None,
            config.system@.len() == 0,
            config.boot@.len() == 0,
            config.wake@.len() == 0,
            config.shutdown@.len() == 0,
            config.spec_device_state() == (DeviceState {
                display_enabled: true,
                display_brightness: Brightness::Med,
                builtin_anims_enabled: true,
                builtin_anims: spec_default_animations(),
                off_when_unplugged: true,
                off_when_suspended: true,
                off_when_lid_closed: true,
                brightness_on_battery: Brightness::Low,
            }),
    {
        AnimeConfig {
            model_override: None,
            system: Vec::new(),
            boot: Vec::new(),
            wake: Vec::new(),
            shutdown: Vec::new(),
            display_enabled: true,
            display_brightness: Brightness::Med,
            builtin_anims_enabled: true,
            off_when_unplugged: true,
            off_when_suspended: true,
            off_when_lid_closed: true,
            brightness_on_battery: Brightness::Low,
            builtin_anims: Animations::default(),
        }
    }
}

/// Whether `out` is what `load` made of the descriptions `from`, one by one.
pub open spec fn spec_loaded<L, F: Fn(AnimeType, &L) -> Result<ActionData, AnimeError>>(
    load: &F,
    anime_type: AnimeType,
    from: Seq<L>,
    out: Seq<ActionData>,
) -> bool {
    &&& out.len() == from.len()
    &&& forall|i: int|
        0 <= i < from.len() ==> call_ensures(
            *load,
            (anime_type, &#[trigger] from[i]),
            Ok::<ActionData, AnimeError>(out[i]),
        )
}

/// Whether `load` failed with `error` on one of the descriptions `from`.
pub open spec fn spec_failed<L, F: Fn(AnimeType, &L) -> Result<ActionData, AnimeError>>(
    load: &F,
    anime_type: AnimeType,
    from: Seq<L>,
    error: AnimeError,
) -> bool {
    exists|i: int|
        0 <= i < from.len() && call_ensures(
            *load,
            (anime_type, &#[trigger] from[i]),
            Err::<ActionData, AnimeError>(error),
        )
}

/// Whether `load` may be called on every one of the descriptions `from`.
pub open spec fn spec_loadable<L, F: Fn(AnimeType, &L) -> Result<ActionData, AnimeError>>(
    load: &F,
    anime_type: AnimeType,
    from: Seq<L>,
) -> bool {
    forall|i: int| 0 <= i < from.len() ==> call_requires(*load, (anime_type, &#[trigger] from[i]))
}

fn load_list<L, F: Fn(AnimeType, &L) -> Result<ActionData, AnimeError>>(
    from: &Vec<L>,
    anime_type: AnimeType,
    load: &F,
) -> (res: Result<Vec<ActionData>, AnimeError>)
    requires
        spec_loadable(load, anime_type, from@),
    ensures
        match res {
            Ok(out) => spec_loaded(load, anime_type, from@, out@),
            Err(error) => spec_failed(load, anime_type, from@, error),
        },
{
    let mut out: Vec<ActionData> = Vec::with_capacity(from.len());
    let mut i: usize = 0;
    while i < from.len()
        invariant
            i <= from@.len(),
            out@.len() == i,
            spec_loadable(load, anime_type, from@),
            forall|k: int|
                0 <= k < i ==> call_ensures(
                    *load,
                    (anime_type, &#[trigger] from@[k]),
                    Ok::<ActionData, AnimeError>(out@[k]),
                ),
        decreases from@.len() - i,
    {
        match load(anime_type, &from[i]) {
            Ok(data) => out.push(data),
            Err(error) => {
                return Err(error);
            },
        }
        i += 1;
    }
    Ok(out)
}

/// The actions made ready from the settings.
#[derive(Debug)]
pub struct AnimeConfigCached {
    pub system: Vec<ActionData>,
    pub boot: Vec<ActionData>,
    pub wake: Vec<ActionData>,
    pub shutdown: Vec<ActionData>,
}

impl Default for AnimeConfigCached {
    fn default() -> (cached: Self)
        ensures
            cached.system@.len() == 0,
            cached.boot@.len() == 0,
            cached.wake@.len() == 0,
            cached.shutdown@.len() == 0,
    {
        AnimeConfigCached {
            system: Vec::new(),
            boot: Vec::new(),
            wake: Vec::new(),
            shutdown: Vec::new(),
        }
    }
}

impl AnimeConfigCached {
    /// Makes the actions of `config` ready with `load`, list by list in the
    /// order system, boot, wake, shutdown. The first failure ends the work:
    /// the lists made ready before it are kept, the others stay as they
    /// were.
    pub fn init_from_config<L, F: Fn(AnimeType, &L) -> Result<ActionData, AnimeError>>(
        &mut self,
        config: &AnimeConfig<L>,
        anime_type: AnimeType,
        load: &F,
    ) -> (res: Result<(), AnimeError>)
        requires
            spec_loadable(load, anime_type, config.system@),
            spec_loadable(load, anime_type, config.boot@),
            spec_loadable(load, anime_type, config.wake@),
            spec_loadable(load, anime_type, config.shutdown@),
        ensures
            match res {
                Ok(()) => {
                    &&& spec_loaded(load, anime_type, config.system@, final(self).system@)
                    &&& spec_loaded(load, anime_type, config.boot@, final(self).boot@)
                    &&& spec_loaded(load, anime_type, config.wake@, final(self).wake@)
                    &&& spec_loaded(load, anime_type, config.shutdown@, final(self).shutdown@)
                },
                Err(error) => {
                    ||| {
                        &&& spec_failed(load, anime_type, config.system@, error)
                        &&& final(self).system@ == old(self).system@
                        &&& final(self).boot@ == old(self).boot@
                        &&& final(self).wake@ == old(self).wake@
                        &&& final(self).shutdown@ == old(self).shutdown@
                    }
                    ||| {
                        &&& spec_loaded(load, anime_type, config.system@, final(self).system@)
                        &&& spec_failed(load, anime_type, config.boot@, error)
                        &&& final(self).boot@ == old(self).boot@
                        &&& final(self).wake@ == old(self).wake@
                        &&& final(self).shutdown@ == old(self).shutdown@
                    }
                    ||| {
                        &&& spec_loaded(load, anime_type, config.system@, final(self).system@)
                        &&& spec_loaded(load, anime_type, config.boot@, final(self).boot@)
                        &&& spec_failed(load, anime_type, config.wake@, error)
                        &&& final(self).wake@ == old(self).wake@
                        &&& final(self).shutdown@ == old(self).shutdown@
                    }
                    ||| {
                        &&& spec_loaded(load, anime_type, config.system@, final(self).system@)
                        &&& spec_loaded(load, anime_type, config.boot@, final(self).boot@)
                        &&& spec_loaded(load, anime_type, config.wake@, final(self).wake@)
                        &&& spec_failed(load, anime_type, config.shutdown@, error)
                        &&& final(self).shutdown@ == old(self).shutdown@
                    }
                },
            },
    {
        match load_list(&config.system, anime_type, load) {
            Ok(list) => self.system = list,
            Err(error) => {
                return Err(error);
            },
        }
        match load_list(&config.boot, anime_type, load) {
            Ok(list) => self.boot = list,
            Err(error) => {
                return Err(error);
            },
        }
        match load_list(&config.wake, anime_type, load) {
            Ok(list) => self.wake = list,
            Err(error) => {
                return Err(error);
            },
        }
        match load_list(&config.shutdown, anime_type, load) {
            Ok(list) => self.shutdown = list,
            Err(error) => {
                return Err(error);
            },
        }
        Ok(())
    }
}

} // verus!
