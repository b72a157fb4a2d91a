//! Settings of the system service, in their current form and in the two
//! earlier forms that are still read, and the notifications that a client
//! shows.

use vstd::prelude::*;

use crate::platform::PlatformPolicy;

verus! {

/// The settings of the system service.
#[derive(Debug)]
pub struct Config {
    /// Save charge limit for restoring on boot
    pub charge_control_end_threshold: u8,
    pub panel_od: bool,
    pub mini_led_mode: bool,
    pub disable_nvidia_powerd_on_battery: bool,
    pub ac_command: String,
    pub bat_command: String,
    /// Restored on boot as well as when power is plugged
    pub platform_policy_to_restore: PlatformPolicy,
    pub platform_policy_on_battery: PlatformPolicy,
    pub platform_policy_on_ac: PlatformPolicy,
    pub ppt_pl1_spl: Option<u8>,
    pub ppt_pl2_sppt: Option<u8>,
    pub ppt_fppt: Option<u8>,
    pub ppt_apu_sppt: Option<u8>,
    pub ppt_platform_sppt: Option<u8>,
    pub nv_dynamic_boost: Option<u8>,
    pub nv_temp_target: Option<u8>,
}

/// The settings as the service kept them before policies were part of them.
#[derive(Debug)]
pub struct Config472 {
    /// Save charge limit for restoring on boot
    pub bat_charge_limit: u8,
    pub panel_od: bool,
    pub mini_led_mode: bool,
    pub disable_nvidia_powerd_on_battery: bool,
    pub ac_command: String,
    pub bat_command: String,
}

/// The settings as the service kept them first.
#[derive(Debug)]
pub struct Config462 {
    /// Save charge limit for restoring on boot
    pub bat_charge_limit: u8,
    pub panel_od: bool,
    pub disable_nvidia_powerd_on_battery: bool,
    pub ac_command: String,
    pub bat_command: String,
}

impl Config {
    /// Whether every power limit is unset and every policy is `Balanced`.
    pub open spec fn spec_limits_unset(&self) -> bool {
        &&& self.platform_policy_to_restore == PlatformPolicy::Balanced
        &&& self.platform_policy_on_battery == PlatformPolicy::Balanced
        &&& self.platform_policy_on_ac == PlatformPolicy::Balanced
        &&& self.ppt_pl1_spl is None
        &&& self.ppt_pl2_sppt is None
        &&& self.ppt_fppt is None
        &&& self.ppt_apu_sppt is None
        &&& self.ppt_platform_sppt is None
        &&& self.nv_dynamic_boost is None
        &&& self.nv_temp_target is None
    }

    /// The settings of a fresh installation: charge up to 100 percent, quiet
    /// on battery and performance on mains, no commands, no power limits.
    pub fn new() -> (config: Self)
        ensures
            config.charge_control_end_threshold == 100,
            !config.panel_od,
            !config.mini_led_mode,
            config.disable_nvidia_powerd_on_battery,
            config.ac_command@.len() == 0,
            config.bat_command@.len() == 0,
            config.platform_policy_to_restore == PlatformPolicy::Balanced,
            config.platform_policy_on_battery == PlatformPolicy::Quiet,
            config.platform_policy_on_ac == PlatformPolicy::Performance,
            config.ppt_pl1_spl is None,
            config.ppt_pl2_sppt is None,
            config.ppt_fppt is None,
            config.ppt_apu_sppt is None,
            config.ppt_platform_sppt is None,
            config.nv_dynamic_boost is None,
            config.nv_temp_target is None,
    {
        Config {
            charge_control_end_threshold: 100,
            panel_od: false,
            mini_led_mode: false,
            disable_nvidia_powerd_on_battery: true,
            ac_command: String::new(),
            bat_command: String::new(),
            platform_policy_to_restore: PlatformPolicy::Balanced,
            platform_policy_on_battery: PlatformPolicy::Quiet,
            platform_policy_on_ac: PlatformPolicy::Performance,
            ppt_pl1_spl: None,
            ppt_pl2_sppt: None,
            ppt_fppt: None,
            ppt_apu_sppt: None,
            ppt_platform_sppt: None,
            nv_dynamic_boost: None,
            nv_temp_target: None,
        }
    }

    /// Takes over settings of the later earlier form: the charge limit, the
    /// panel overdrive and the two commands are kept, the mini LED mode is
    /// dropped, and the graphics power daemon is always switched off on
    /// battery.
    pub fn from_472(c: Config472) -> (config: Self)
        ensures
            config.charge_control_end_threshold == c.bat_charge_limit,
            config.panel_od == c.panel_od,
            !config.mini_led_mode,
            config.disable_nvidia_powerd_on_battery,
            config.ac_command@ == c.ac_command@,
            config.bat_command@ == c.bat_command@,
            config.spec_limits_unset(),
    {
        Config {
            charge_control_end_threshold: c.bat_charge_limit,
            panel_od: c.panel_od,
            mini_led_mode: false,
            disable_nvidia_powerd_on_battery: true,
            ac_command: c.ac_command,
            bat_command: c.bat_command,
            platform_policy_to_restore: PlatformPolicy::Balanced,
            platform_policy_on_battery: PlatformPolicy::Balanced,
            platform_policy_on_ac: PlatformPolicy::Balanced,
            ppt_pl1_spl: None,
            ppt_pl2_sppt: None,
            ppt_fppt: None,
            ppt_apu_sppt: None,
            ppt_platform_sppt: None,
            nv_dynamic_boost: None,
            nv_temp_target: None,
        }
    }

    /// Takes over settings of the first form: the charge limit and the
    /// panel overdrive are kept, the commands are dropped, and the graphics
    /// power daemon is always switched off on battery.
    pub fn from_462(c: Config462) -> (config: Self)
        ensures
            config.charge_control_end_threshold == c.bat_charge_limit,
            config.panel_od == c.panel_od,
            !config.mini_led_mode,
            config.disable_nvidia_powerd_on_battery,
            config.ac_command@.len() == 0,
            config.bat_command@.len() == 0,
            config.spec_limits_unset(),
    {
        Config {
            charge_control_end_threshold: c.bat_charge_limit,
            panel_od: c.panel_od,
            mini_led_mode: false,
            disable_nvidia_powerd_on_battery: true,
            ac_command: String::new(),
            bat_command: String::new(),
            platform_policy_to_restore: PlatformPolicy::Balanced,
            platform_policy_on_battery: PlatformPolicy::Balanced,
            platform_policy_on_ac: PlatformPolicy::Balanced,
            ppt_pl1_spl: None,
            ppt_pl2_sppt: None,
            ppt_fppt: None,
            ppt_apu_sppt: None,
            ppt_platform_sppt: None,
            nv_dynamic_boost: None,
            nv_temp_target: None,
        }
    }
}

/// Which changes of the system a client shows as notifications.
#[derive(Debug, Clone, Copy, PartialEq, Eq, Structural)]
pub struct EnabledNotifications {
    pub receive_post_animation_sound_changed: bool,
    pub receive_panel_od_changed: bool,
    pub receive_mini_led_mode_changed: bool,
    pub receive_dgpu_disable_changed: bool,
    pub receive_egpu_enable_changed: bool,
    pub receive_gpu_mux_mode_changed: bool,
    pub receive_charge_control_end_threshold_changed: bool,
    pub receive_notify_mains_online: bool,
    pub receive_throttle_thermal_policy_changed: bool,
    pub receive_led_mode_data_changed: bool,
    /// Power states of the matrix display
    pub receive_power_states: bool,
    pub receive_notify_gfx: bool,
    pub receive_notify_gfx_status: bool,
    pub all_enabled: bool,
}

/// The notifications of a fresh installation.
pub open spec fn spec_default_notifications() -> EnabledNotifications {
    EnabledNotifications {
        receive_post_animation_sound_changed: false,
        receive_panel_od_changed: true,
        receive_mini_led_mode_changed: true,
        receive_dgpu_disable_changed: true,
        receive_egpu_enable_changed: true,
        receive_gpu_mux_mode_changed: true,
        receive_charge_control_end_threshold_changed: true,
        receive_notify_mains_online: false,
        receive_throttle_thermal_policy_changed: true,
        receive_led_mode_data_changed: true,
        receive_power_states: false,
        receive_notify_gfx: false,
        receive_notify_gfx_status: false,
        all_enabled: false,
    }
}

impl Default for EnabledNotifications {
    fn default() -> (enabled: Self)
        ensures
            enabled == spec_default_notifications(),
    {
        EnabledNotifications {
            receive_post_animation_sound_changed: false,
            receive_panel_od_changed: true,
            receive_mini_led_mode_changed: true,
            receive_dgpu_disable_changed: true,
            receive_egpu_enable_changed: true,
            receive_gpu_mux_mode_changed: true,
            receive_charge_control_end_threshold_changed: true,
            receive_notify_mains_online: false,
            receive_throttle_thermal_policy_changed: true,
            receive_led_mode_data_changed: true,
            receive_power_states: false,
            receive_notify_gfx: false,
            receive_notify_gfx_status: false,
            all_enabled: false,
        }
    }
}

impl EnabledNotifications {
    /// Whether a change is shown: notifications as a whole are switched on,
    /// and so is the one for this change.
    pub fn shows(&self, this_one: bool) -> (shown: bool)
        ensures
            shown == (self.all_enabled && this_one),
    {
        self.all_enabled && this_one
    }
}

} // verus!
