//! What a change of the settings has to be followed by.

use crate::platform::Platform;
use crate::settings::IVerge;
use vstd::prelude::*;

verus! {

/// Something that a change of the settings has to be followed by.
#[derive(Debug, Clone, Copy, PartialEq, Eq, Structural)]
pub enum UpdateFlag {
    RestartCore,
    ClashConfig,
    VergeConfig,
    Launch,
    SysProxy,
    SystrayIcon,
    Hotkey,
    SystrayMenu,
    SystrayTooltip,
    SystrayClickBehavior,
    LightWeight,
    Language,
    LogLevel,
    LogFile,
}

impl UpdateFlag {
    /// The wording of the flag's name.
    pub open spec fn name_wording(self) -> Seq<char> {
        match self {
            UpdateFlag::RestartCore => "UpdateFlags(RESTART_CORE)"@,
            UpdateFlag::ClashConfig => "UpdateFlags(CLASH_CONFIG)"@,
            UpdateFlag::VergeConfig => "UpdateFlags(VERGE_CONFIG)"@,
            UpdateFlag::Launch => "UpdateFlags(LAUNCH)"@,
            UpdateFlag::SysProxy => "UpdateFlags(SYS_PROXY)"@,
            UpdateFlag::SystrayIcon => "UpdateFlags(SYSTRAY_ICON)"@,
            UpdateFlag::Hotkey => "UpdateFlags(HOTKEY)"@,
            UpdateFlag::SystrayMenu => "UpdateFlags(SYSTRAY_MENU)"@,
            UpdateFlag::SystrayTooltip => "UpdateFlags(SYSTRAY_TOOLTIP)"@,
            UpdateFlag::SystrayClickBehavior => "UpdateFlags(SYSTRAY_CLICK_BEHAVIOR)"@,
            UpdateFlag::LightWeight => "UpdateFlags(LIGHT_WEIGHT)"@,
            UpdateFlag::Language => "UpdateFlags(LANGUAGE)"@,
            UpdateFlag::LogLevel => "UpdateFlags(LOG_LEVEL)"@,
            UpdateFlag::LogFile => "UpdateFlags(LOG_FILE)"@,
        }
    }

    /// The name of the flag.
    pub fn name(&self) -> (r: &'static str)
        ensures
            r@ == self.name_wording(),
    {
        match self {
            UpdateFlag::RestartCore => "UpdateFlags(RESTART_CORE)",
            UpdateFlag::ClashConfig => "UpdateFlags(CLASH_CONFIG)",
            UpdateFlag::VergeConfig => "UpdateFlags(VERGE_CONFIG)",
            UpdateFlag::Launch => "UpdateFlags(LAUNCH)",
            UpdateFlag::SysProxy => "UpdateFlags(SYS_PROXY)",
            UpdateFlag::SystrayIcon => "UpdateFlags(SYSTRAY_ICON)",
            UpdateFlag::Hotkey => "UpdateFlags(HOTKEY)",
            UpdateFlag::SystrayMenu => "UpdateFlags(SYSTRAY_MENU)",
            UpdateFlag::SystrayTooltip => "UpdateFlags(SYSTRAY_TOOLTIP)",
            UpdateFlag::SystrayClickBehavior => "UpdateFlags(SYSTRAY_CLICK_BEHAVIOR)",
            UpdateFlag::LightWeight => "UpdateFlags(LIGHT_WEIGHT)",
            UpdateFlag::Language => "UpdateFlags(LANGUAGE)",
            UpdateFlag::LogLevel => "UpdateFlags(LOG_LEVEL)",
            UpdateFlag::LogFile => "UpdateFlags(LOG_FILE)",
        }
    }
}

/// A set of flags.
#[derive(Debug, Clone, Copy, PartialEq, Eq, Structural)]
pub struct UpdateFlags {
    pub restart_core: bool,
    pub clash_config: bool,
    pub verge_config: bool,
    pub launch: bool,
    pub sys_proxy: bool,
    pub systray_icon: bool,
    pub hotkey: bool,
    pub systray_menu: bool,
    pub systray_tooltip: bool,
    pub systray_click_behavior: bool,
    pub light_weight: bool,
    pub language: bool,
    pub log_level: bool,
    pub log_file: bool,
}

impl UpdateFlags {
    /// Whether a flag is in the set.
    pub open spec fn has(self, flag: UpdateFlag) -> bool {
        match flag {
            UpdateFlag::RestartCore => self.restart_core,
            UpdateFlag::ClashConfig => self.clash_config,
            UpdateFlag::VergeConfig => self.verge_config,
            UpdateFlag::Launch => self.launch,
            UpdateFlag::SysProxy => self.sys_proxy,
            UpdateFlag::SystrayIcon => self.systray_icon,
            UpdateFlag::Hotkey => self.hotkey,
            UpdateFlag::SystrayMenu => self.systray_menu,
            UpdateFlag::SystrayTooltip => self.systray_tooltip,
            UpdateFlag::SystrayClickBehavior => self.systray_click_behavior,
            UpdateFlag::LightWeight => self.light_weight,
            UpdateFlag::Language => self.language,
            UpdateFlag::LogLevel => self.log_level,
            UpdateFlag::LogFile => self.log_file,
        }
    }

    /// The set without flags.
    pub open spec fn nothing() -> Self {
        UpdateFlags {
            restart_core: false,
            clash_config: false,
            verge_config: false,
            launch: false,
            sys_proxy: false,
            systray_icon: false,
            hotkey: false,
            systray_menu: false,
            systray_tooltip: false,
            systray_click_behavior: false,
            light_weight: false,
            language: false,
            log_level: false,
            log_file: false,
        }
    }

    /// The set of all flags.
    pub open spec fn everything() -> Self {
        UpdateFlags {
            restart_core: true,
            clash_config: true,
            verge_config: true,
            launch: true,
            sys_proxy: true,
            systray_icon: true,
            hotkey: true,
            systray_menu: true,
            systray_tooltip: true,
            systray_click_behavior: true,
            light_weight: true,
            language: true,
            log_level: true,
            log_file: true,
        }
    }

    /// The set with a flag added.
    pub open spec fn with(self, flag: UpdateFlag) -> Self {
        match flag {
            UpdateFlag::RestartCore => UpdateFlags { restart_core: true, ..self },
            UpdateFlag::ClashConfig => UpdateFlags { clash_config: true, ..self },
            UpdateFlag::VergeConfig => UpdateFlags { verge_config: true, ..self },
            UpdateFlag::Launch => UpdateFlags { launch: true, ..self },
            UpdateFlag::SysProxy => UpdateFlags { sys_proxy: true, ..self },
            UpdateFlag::SystrayIcon => UpdateFlags { systray_icon: true, ..self },
            UpdateFlag::Hotkey => UpdateFlags { hotkey: true, ..self },
            UpdateFlag::SystrayMenu => UpdateFlags { systray_menu: true, ..self },
            UpdateFlag::SystrayTooltip => UpdateFlags { systray_tooltip: true, ..self },
            UpdateFlag::SystrayClickBehavior => UpdateFlags { systray_click_behavior: true, ..self },
            UpdateFlag::LightWeight => UpdateFlags { light_weight: true, ..self },
            UpdateFlag::Language => UpdateFlags { language: true, ..self },
            UpdateFlag::LogLevel => UpdateFlags { log_level: true, ..self },
            UpdateFlag::LogFile => UpdateFlags { log_file: true, ..self },
        }
    }

    /// The flags of either set.
    pub open spec fn plus(self, other: Self) -> Self {
        UpdateFlags {
            restart_core: self.restart_core || other.restart_core,
            clash_config: self.clash_config || other.clash_config,
            verge_config: self.verge_config || other.verge_config,
            launch: self.launch || other.launch,
            sys_proxy: self.sys_proxy || other.sys_proxy,
            systray_icon: self.systray_icon || other.systray_icon,
            hotkey: self.hotkey || other.hotkey,
            systray_menu: self.systray_menu || other.systray_menu,
            systray_tooltip: self.systray_tooltip || other.systray_tooltip,
            systray_click_behavior: self.systray_click_behavior || other.systray_click_behavior,
            light_weight: self.light_weight || other.light_weight,
            language: self.language || other.language,
            log_level: self.log_level || other.log_level,
            log_file: self.log_file || other.log_file,
        }
    }

    /// The flags of this set that are not in the other.
    pub open spec fn minus(self, other: Self) -> Self {
        UpdateFlags {
            restart_core: self.restart_core && !other.restart_core,
            clash_config: self.clash_config && !other.clash_config,
            verge_config: self.verge_config && !other.verge_config,
            launch: self.launch && !other.launch,
            sys_proxy: self.sys_proxy && !other.sys_proxy,
            systray_icon: self.systray_icon && !other.systray_icon,
            hotkey: self.hotkey && !other.hotkey,
            systray_menu: self.systray_menu && !other.systray_menu,
            systray_tooltip: self.systray_tooltip && !other.systray_tooltip,
            systray_click_behavior: self.systray_click_behavior && !other.systray_click_behavior,
            light_weight: self.light_weight && !other.light_weight,
            language: self.language && !other.language,
            log_level: self.log_level && !other.log_level,
            log_file: self.log_file && !other.log_file,
        }
    }

    /// The flags of the system tray.
    pub open spec fn tray() -> Self {
        UpdateFlags {
            systray_menu: true,
            systray_tooltip: true,
            systray_icon: true,
            ..UpdateFlags::nothing()
        }
    }

    /// The set without flags.
    pub fn empty() -> (r: Self)
        ensures
            r == UpdateFlags::nothing(),
    {
        UpdateFlags {
            restart_core: false,
            clash_config: false,
            verge_config: false,
            launch: false,
            sys_proxy: false,
            systray_icon: false,
            hotkey: false,
            systray_menu: false,
            systray_tooltip: false,
            systray_click_behavior: false,
            light_weight: false,
            language: false,
            log_level: false,
            log_file: false,
        }
    }

    /// The set of all flags.
    pub fn all() -> (r: Self)
        ensures
            r == UpdateFlags::everything(),
    {
        UpdateFlags {
            restart_core: true,
            clash_config: true,
            verge_config: true,
            launch: true,
            sys_proxy: true,
            systray_icon: true,
            hotkey: true,
            systray_menu: true,
            systray_tooltip: true,
            systray_click_behavior: true,
            light_weight: true,
            language: true,
            log_level: true,
            log_file: true,
        }
    }

    /// The set of one flag.
    pub fn of(flag: UpdateFlag) -> (r: Self)
        ensures
            r == UpdateFlags::nothing().with(flag),
    {
        let mut r = UpdateFlags::empty();
        r.insert(flag);
        r
    }

    /// The flags of the system tray.
    pub fn group_sys_tray() -> (r: Self)
        ensures
            r == UpdateFlags::tray(),
    {
        let mut r = UpdateFlags::of(UpdateFlag::SystrayMenu);
        r.insert(UpdateFlag::SystrayTooltip);
        r.insert(UpdateFlag::SystrayIcon);
        r
    }

    /// Adds a flag.
    pub fn insert(&mut self, flag: UpdateFlag)
        ensures
            *final(self) == old(self).with(flag),
    {
        *self = match flag {
            UpdateFlag::RestartCore => UpdateFlags { restart_core: true, ..*self },
            UpdateFlag::ClashConfig => UpdateFlags { clash_config: true, ..*self },
            UpdateFlag::VergeConfig => UpdateFlags { verge_config: true, ..*self },
            UpdateFlag::Launch => UpdateFlags { launch: true, ..*self },
            UpdateFlag::SysProxy => UpdateFlags { sys_proxy: true, ..*self },
            UpdateFlag::SystrayIcon => UpdateFlags { systray_icon: true, ..*self },
            UpdateFlag::Hotkey => UpdateFlags { hotkey: true, ..*self },
            UpdateFlag::SystrayMenu => UpdateFlags { systray_menu: true, ..*self },
            UpdateFlag::SystrayTooltip => UpdateFlags { systray_tooltip: true, ..*self },
            UpdateFlag::SystrayClickBehavior => UpdateFlags { systray_click_behavior: true, ..*self },
            UpdateFlag::LightWeight => UpdateFlags { light_weight: true, ..*self },
            UpdateFlag::Language => UpdateFlags { language: true, ..*self },
            UpdateFlag::LogLevel => UpdateFlags { log_level: true, ..*self },
            UpdateFlag::LogFile => UpdateFlags { log_file: true, ..*self },
        };
    }

    /// Whether a flag is in the set.
    pub fn contains_flag(&self, flag: UpdateFlag) -> (r: bool)
        ensures
            r == self.has(flag),
    {
        match flag {
            UpdateFlag::RestartCore => self.restart_core,
            UpdateFlag::ClashConfig => self.clash_config,
            UpdateFlag::VergeConfig => self.verge_config,
            UpdateFlag::Launch => self.launch,
            UpdateFlag::SysProxy => self.sys_proxy,
            UpdateFlag::SystrayIcon => self.systray_icon,
            UpdateFlag::Hotkey => self.hotkey,
            UpdateFlag::SystrayMenu => self.systray_menu,
            UpdateFlag::SystrayTooltip => self.systray_tooltip,
            UpdateFlag::SystrayClickBehavior => self.systray_click_behavior,
            UpdateFlag::LightWeight => self.light_weight,
            UpdateFlag::Language => self.language,
            UpdateFlag::LogLevel => self.log_level,
            UpdateFlag::LogFile => self.log_file,
        }
    }

    /// The flags of either set.
    pub fn union(&self, other: UpdateFlags) -> (r: Self)
        ensures
            r == self.plus(other),
    {
        UpdateFlags {
            restart_core: self.restart_core || other.restart_core,
            clash_config: self.clash_config || other.clash_config,
            verge_config: self.verge_config || other.verge_config,
            launch: self.launch || other.launch,
            sys_proxy: self.sys_proxy || other.sys_proxy,
            systray_icon: self.systray_icon || other.systray_icon,
            hotkey: self.hotkey || other.hotkey,
            systray_menu: self.systray_menu || other.systray_menu,
            systray_tooltip: self.systray_tooltip || other.systray_tooltip,
            systray_click_behavior: self.systray_click_behavior || other.systray_click_behavior,
            light_weight: self.light_weight || other.light_weight,
            language: self.language || other.language,
            log_level: self.log_level || other.log_level,
            log_file: self.log_file || other.log_file,
        }
    }

    /// The flags of this set that are not in the other.
    pub fn difference(&self, other: UpdateFlags) -> (r: Self)
        ensures
            r == self.minus(other),
    {
        UpdateFlags {
            restart_core: self.restart_core && !other.restart_core,
            clash_config: self.clash_config && !other.clash_config,
            verge_config: self.verge_config && !other.verge_config,
            launch: self.launch && !other.launch,
            sys_proxy: self.sys_proxy && !other.sys_proxy,
            systray_icon: self.systray_icon && !other.systray_icon,
            hotkey: self.hotkey && !other.hotkey,
            systray_menu: self.systray_menu && !other.systray_menu,
            systray_tooltip: self.systray_tooltip && !other.systray_tooltip,
            systray_click_behavior: self.systray_click_behavior && !other.systray_click_behavior,
            light_weight: self.light_weight && !other.light_weight,
            language: self.language && !other.language,
            log_level: self.log_level && !other.log_level,
            log_file: self.log_file && !other.log_file,
        }
    }

    /// Whether the set has no flags.
    pub fn is_empty(&self) -> (r: bool)
        ensures
            r == (*self == UpdateFlags::nothing()),
    {
        !self.restart_core
            && !self.clash_config
            && !self.verge_config
            && !self.launch
            && !self.sys_proxy
            && !self.systray_icon
            && !self.hotkey
            && !self.systray_menu
            && !self.systray_tooltip
            && !self.systray_click_behavior
            && !self.light_weight
            && !self.language
            && !self.log_level
            && !self.log_file
    }

    /// Whether every flag of the other set is in this one.
    pub fn contains(&self, other: UpdateFlags) -> (r: bool)
        ensures
            r == (other.minus(*self) == UpdateFlags::nothing()),
    {
        other.difference(*self).is_empty()
    }

    /// Whether the two sets have a flag in common.
    pub fn intersects(&self, other: UpdateFlags) -> (r: bool)
        ensures
            r == (self.minus(self.minus(other)) != UpdateFlags::nothing()),
    {
        !self.difference(self.difference(other)).is_empty()
    }
}

/// Whether a patch of the settings has to be followed by `flag`.
pub open spec fn asked_by(patch: IVerge, platform: Platform, flag: UpdateFlag) -> bool {
    match flag {
        UpdateFlag::RestartCore => {
            ||| patch.verge_socks_enabled is Some
            ||| patch.verge_http_enabled is Some
            ||| patch.verge_socks_port is Some
            ||| patch.verge_port is Some
            ||| patch.verge_mixed_port is Some
            ||| patch.enable_external_controller is Some
            ||| !(platform is Windows) && (patch.verge_redir_enabled is Some
                || patch.verge_redir_port is Some)
            ||| platform is Linux && (patch.verge_tproxy_enabled is Some
                || patch.verge_tproxy_port is Some || patch.enable_tun_mode == Some(true))
        },
        UpdateFlag::ClashConfig => patch.enable_tun_mode is Some,
        UpdateFlag::VergeConfig => patch.enable_global_hotkey is Some || patch.home_cards is Some,
        UpdateFlag::Launch => patch.enable_auto_launch is Some,
        UpdateFlag::SysProxy => {
            ||| patch.enable_system_proxy is Some
            ||| patch.system_proxy_bypass is Some
            ||| patch.pac_file_content is Some
            ||| patch.proxy_auto_config is Some
            ||| patch.enable_proxy_guard is Some
            ||| patch.proxy_guard_duration is Some
        },
        UpdateFlag::SystrayIcon => {
            ||| patch.enable_tun_mode is Some
            ||| patch.enable_system_proxy is Some
            ||| patch.common_tray_icon is Some
            ||| patch.sysproxy_tray_icon is Some
            ||| patch.tun_tray_icon is Some
            ||| platform is MacOs && (patch.tray_icon is Some || patch.enable_tray_speed is Some)
        },
        UpdateFlag::Hotkey => patch.hotkeys is Some,
        UpdateFlag::SystrayMenu => {
            ||| patch.enable_tun_mode is Some
            ||| patch.enable_system_proxy is Some
            ||| patch.language is Some
            ||| patch.hotkeys is Some
            ||| patch.tray_proxy_groups_display_mode is Some
            ||| patch.tray_inline_outbound_modes is Some
        },
        UpdateFlag::SystrayTooltip => {
            ||| patch.enable_tun_mode is Some
            ||| patch.enable_system_proxy is Some
            ||| patch.language is Some
        },
        UpdateFlag::SystrayClickBehavior => patch.tray_event is Some,
        UpdateFlag::LightWeight => patch.enable_auto_light_weight_mode is Some,
        UpdateFlag::Language => patch.language is Some,
        UpdateFlag::LogLevel => patch.app_log_level is Some,
        UpdateFlag::LogFile => patch.app_log_max_size is Some || patch.app_log_max_count is Some,
    }
}

/// What a patch of the settings has to be followed by.
pub open spec fn asked_flags(patch: IVerge, platform: Platform) -> UpdateFlags {
    UpdateFlags {
        restart_core: asked_by(patch, platform, UpdateFlag::RestartCore),
        clash_config: asked_by(patch, platform, UpdateFlag::ClashConfig),
        verge_config: asked_by(patch, platform, UpdateFlag::VergeConfig),
        launch: asked_by(patch, platform, UpdateFlag::Launch),
        sys_proxy: asked_by(patch, platform, UpdateFlag::SysProxy),
        systray_icon: asked_by(patch, platform, UpdateFlag::SystrayIcon),
        hotkey: asked_by(patch, platform, UpdateFlag::Hotkey),
        systray_menu: asked_by(patch, platform, UpdateFlag::SystrayMenu),
        systray_tooltip: asked_by(patch, platform, UpdateFlag::SystrayTooltip),
        systray_click_behavior: asked_by(patch, platform, UpdateFlag::SystrayClickBehavior),
        light_weight: asked_by(patch, platform, UpdateFlag::LightWeight),
        language: asked_by(patch, platform, UpdateFlag::Language),
        log_level: asked_by(patch, platform, UpdateFlag::LogLevel),
        log_file: asked_by(patch, platform, UpdateFlag::LogFile),
    }
}

/// Determines what a patch of the settings has to be followed by.
pub fn determine_update_flags(patch: &IVerge, platform: Platform) -> (r: UpdateFlags)
    ensures
        r == asked_flags(*patch, platform),
        patch.enable_tun_mode is Some ==> r.clash_config && r.systray_menu && r.systray_tooltip &&
            r.systray_icon,
        patch.enable_system_proxy is Some ==> r.sys_proxy && r.systray_menu && r.systray_tooltip
            && r.systray_icon,
        patch.system_proxy_bypass is Some ==> r.sys_proxy,
        patch.pac_file_content is Some ==> r.sys_proxy,
        patch.proxy_auto_config is Some ==> r.sys_proxy,
        patch.enable_proxy_guard is Some ==> r.sys_proxy,
        patch.proxy_guard_duration is Some ==> r.sys_proxy,
        patch.enable_global_hotkey is Some ==> r.verge_config,
        patch.home_cards is Some ==> r.verge_config,
        patch.enable_auto_launch is Some ==> r.launch,
        patch.language is Some ==> r.language && r.systray_menu && r.systray_tooltip,
        patch.hotkeys is Some ==> r.hotkey && r.systray_menu,
        patch.common_tray_icon is Some ==> r.systray_icon,
        patch.sysproxy_tray_icon is Some ==> r.systray_icon,
        patch.tun_tray_icon is Some ==> r.systray_icon,
        patch.tray_icon is Some && platform is MacOs ==> r.systray_icon,
        patch.enable_tray_speed is Some && platform is MacOs ==> r.systray_icon,
        patch.tray_proxy_groups_display_mode is Some ==> r.systray_menu,
        patch.tray_inline_outbound_modes is Some ==> r.systray_menu,
        patch.tray_event is Some ==> r.systray_click_behavior,
        patch.enable_auto_light_weight_mode is Some ==> r.light_weight,
        patch.app_log_level is Some ==> r.log_level,
        patch.app_log_max_size is Some ==> r.log_file,
        patch.app_log_max_count is Some ==> r.log_file,
        patch.verge_socks_enabled is Some ==> r.restart_core,
        patch.verge_http_enabled is Some ==> r.restart_core,
        patch.verge_socks_port is Some ==> r.restart_core,
        patch.verge_port is Some ==> r.restart_core,
        patch.verge_mixed_port is Some ==> r.restart_core,
        patch.enable_external_controller is Some ==> r.restart_core,
        patch.verge_redir_enabled is Some && !(platform is Windows) ==> r.restart_core,
        patch.verge_redir_port is Some && !(platform is Windows) ==> r.restart_core,
        patch.verge_tproxy_enabled is Some && platform is Linux ==> r.restart_core,
        patch.verge_tproxy_port is Some && platform is Linux ==> r.restart_core,
        patch.enable_tun_mode == Some(true) && platform is Linux ==> r.restart_core,
        r.clash_config ==> patch.enable_tun_mode is Some,
        r.systray_menu ==> patch.enable_tun_mode is Some || patch.enable_system_proxy is Some ||
            patch.language is Some || patch.hotkeys is Some ||
            patch.tray_proxy_groups_display_mode is Some || patch.tray_inline_outbound_modes is
            Some,
        r.systray_tooltip ==> patch.enable_tun_mode is Some || patch.enable_system_proxy is Some
            || patch.language is Some,
        r.systray_icon ==> patch.enable_tun_mode is Some || patch.enable_system_proxy is Some ||
            patch.common_tray_icon is Some || patch.sysproxy_tray_icon is Some ||
            patch.tun_tray_icon is Some || (patch.tray_icon is Some && platform is MacOs) ||
            (patch.enable_tray_speed is Some && platform is MacOs),
        r.sys_proxy ==> patch.enable_system_proxy is Some || patch.system_proxy_bypass is Some ||
            patch.pac_file_content is Some || patch.proxy_auto_config is Some ||
            patch.enable_proxy_guard is Some || patch.proxy_guard_duration is Some,
        r.verge_config ==> patch.enable_global_hotkey is Some || patch.home_cards is Some,
        r.launch ==> patch.enable_auto_launch is Some,
        r.language ==> patch.language is Some,
        r.hotkey ==> patch.hotkeys is Some,
        r.systray_click_behavior ==> patch.tray_event is Some,
        r.light_weight ==> patch.enable_auto_light_weight_mode is Some,
        r.log_level ==> patch.app_log_level is Some,
        r.log_file ==> patch.app_log_max_size is Some || patch.app_log_max_count is Some,
        r.restart_core ==> patch.verge_socks_enabled is Some || patch.verge_http_enabled is Some
            || patch.verge_socks_port is Some || patch.verge_port is Some ||
            patch.verge_mixed_port is Some || patch.enable_external_controller is Some ||
            (patch.verge_redir_enabled is Some && !(platform is Windows)) ||
            (patch.verge_redir_port is Some && !(platform is Windows)) ||
            (patch.verge_tproxy_enabled is Some && platform is Linux) || (patch.verge_tproxy_port
            is Some && platform is Linux) || (patch.enable_tun_mode == Some(true) && platform is
            Linux),
{
    let redir_counts = match platform {
        Platform::Windows => false,
        _ => true,
    };
    let tproxy_counts = match platform {
        Platform::Linux => true,
        _ => false,
    };
    let tray_extras_count = match platform {
        Platform::MacOs => true,
        _ => false,
    };
    let tun_turned_on = match patch.enable_tun_mode {
        Some(on) => on,
        None => false,
    };
    let tun_mode = patch.enable_tun_mode.is_some();
    let system_proxy = patch.enable_system_proxy.is_some();
    let language = patch.language.is_some();
    let hotkeys = patch.hotkeys.is_some();

    let restart_core = patch.verge_socks_enabled.is_some() || patch.verge_http_enabled.is_some()
        || patch.verge_socks_port.is_some() || patch.verge_port.is_some()
        || patch.verge_mixed_port.is_some() || patch.enable_external_controller.is_some() || (
    redir_counts && (patch.verge_redir_enabled.is_some() || patch.verge_redir_port.is_some())) || (
    tproxy_counts && (patch.verge_tproxy_enabled.is_some() || patch.verge_tproxy_port.is_some()
        || tun_turned_on));
    let sys_proxy = system_proxy || patch.system_proxy_bypass.is_some()
        || patch.pac_file_content.is_some() || patch.proxy_auto_config.is_some()
        || patch.enable_proxy_guard.is_some() || patch.proxy_guard_duration.is_some();
    let systray_icon = tun_mode || system_proxy || patch.common_tray_icon.is_some()
        || patch.sysproxy_tray_icon.is_some() || patch.tun_tray_icon.is_some() || (
    tray_extras_count && (patch.tray_icon.is_some() || patch.enable_tray_speed.is_some()));
    let systray_menu = tun_mode || system_proxy || language || hotkeys
        || patch.tray_proxy_groups_display_mode.is_some()
        || patch.tray_inline_outbound_modes.is_some();

    UpdateFlags {
        restart_core,
        clash_config: tun_mode,
        verge_config: patch.enable_global_hotkey.is_some() || patch.home_cards.is_some(),
        launch: patch.enable_auto_launch.is_some(),
        sys_proxy,
        systray_icon,
        hotkey: hotkeys,
        systray_menu,
        systray_tooltip: tun_mode || system_proxy || language,
        systray_click_behavior: patch.tray_event.is_some(),
        light_weight: patch.enable_auto_light_weight_mode.is_some(),
        language,
        log_level: patch.app_log_level.is_some(),
        log_file: patch.app_log_max_size.is_some() || patch.app_log_max_count.is_some(),
    }
}

/// The flags that do not touch the configuration the core runs on.
pub fn non_runtime_side_effect_flags(update_flags: UpdateFlags) -> (r: UpdateFlags)
    ensures
        r == (UpdateFlags { restart_core: false, clash_config: false, ..update_flags }),
{
    update_flags.difference(
        UpdateFlags::of(UpdateFlag::RestartCore).union(UpdateFlags::of(UpdateFlag::ClashConfig)),
    )
}

/// A set is made up of its flags: adding a flag puts that one in, a union has
/// what either set has, and a difference what only the first has.
pub proof fn law_flags_are_a_set(a: UpdateFlags, b: UpdateFlags, added: UpdateFlag, f: UpdateFlag)
    ensures
        !UpdateFlags::nothing().has(f),
        UpdateFlags::everything().has(f),
        a.with(added).has(f) <==> a.has(f) || f == added,
        a.plus(b).has(f) <==> a.has(f) || b.has(f),
        a.minus(b).has(f) <==> a.has(f) && !b.has(f),
{
}

/// What has to follow a patch is, flag by flag, what the patch asks for.
pub proof fn law_asked_flags_are_those_asked_for(
    patch: IVerge,
    platform: Platform,
    f: UpdateFlag,
)
    ensures
        asked_flags(patch, platform).has(f) <==> asked_by(patch, platform, f),
{
}

/// A patch that gives nothing has to be followed by nothing.
pub proof fn law_blank_patch_asks_for_nothing(platform: Platform)
    ensures
        asked_flags(IVerge::blank(), platform) == UpdateFlags::nothing(),
{
}

/// Each setting that a patch gives has its consequences, and nothing follows
/// that no setting of the patch asks for: the system proxy is set for what has
/// to do with it, the core is restarted for its ports and for what it is
/// reached by, its configuration is updated for TUN, and so on.
pub proof fn law_each_setting_has_its_consequences(patch: IVerge, platform: Platform)
    ensures
        patch.enable_tun_mode is Some ==> asked_flags(patch, platform).clash_config &&
            asked_flags(patch, platform).systray_menu && asked_flags(patch,
            platform).systray_tooltip && asked_flags(patch, platform).systray_icon,
        patch.enable_system_proxy is Some ==> asked_flags(patch, platform).sys_proxy &&
            asked_flags(patch, platform).systray_menu && asked_flags(patch,
            platform).systray_tooltip && asked_flags(patch, platform).systray_icon,
        patch.system_proxy_bypass is Some ==> asked_flags(patch, platform).sys_proxy,
        patch.pac_file_content is Some ==> asked_flags(patch, platform).sys_proxy,
        patch.proxy_auto_config is Some ==> asked_flags(patch, platform).sys_proxy,
        patch.enable_proxy_guard is Some ==> asked_flags(patch, platform).sys_proxy,
        patch.proxy_guard_duration is Some ==> asked_flags(patch, platform).sys_proxy,
        patch.enable_global_hotkey is Some ==> asked_flags(patch, platform).verge_config,
        patch.home_cards is Some ==> asked_flags(patch, platform).verge_config,
        patch.enable_auto_launch is Some ==> asked_flags(patch, platform).launch,
        patch.language is Some ==> asked_flags(patch, platform).language && asked_flags(patch,
            platform).systray_menu && asked_flags(patch, platform).systray_tooltip,
        patch.hotkeys is Some ==> asked_flags(patch, platform).hotkey && asked_flags(patch,
            platform).systray_menu,
        patch.common_tray_icon is Some ==> asked_flags(patch, platform).systray_icon,
        patch.sysproxy_tray_icon is Some ==> asked_flags(patch, platform).systray_icon,
        patch.tun_tray_icon is Some ==> asked_flags(patch, platform).systray_icon,
        patch.tray_icon is Some && platform is MacOs ==> asked_flags(patch, platform).systray_icon,
        patch.enable_tray_speed is Some && platform is MacOs ==> asked_flags(patch,
            platform).systray_icon,
        patch.tray_proxy_groups_display_mode is Some ==> asked_flags(patch, platform).systray_menu,
        patch.tray_inline_outbound_modes is Some ==> asked_flags(patch, platform).systray_menu,
        patch.tray_event is Some ==> asked_flags(patch, platform).systray_click_behavior,
        patch.enable_auto_light_weight_mode is Some ==> asked_flags(patch, platform).light_weight,
        patch.app_log_level is Some ==> asked_flags(patch, platform).log_level,
        patch.app_log_max_size is Some ==> asked_flags(patch, platform).log_file,
        patch.app_log_max_count is Some ==> asked_flags(patch, platform).log_file,
        patch.verge_socks_enabled is Some ==> asked_flags(patch, platform).restart_core,
        patch.verge_http_enabled is Some ==> asked_flags(patch, platform).restart_core,
        patch.verge_socks_port is Some ==> asked_flags(patch, platform).restart_core,
        patch.verge_port is Some ==> asked_flags(patch, platform).restart_core,
        patch.verge_mixed_port is Some ==> asked_flags(patch, platform).restart_core,
        patch.enable_external_controller is Some ==> asked_flags(patch, platform).restart_core,
        patch.verge_redir_enabled is Some && !(platform is Windows) ==> asked_flags(patch,
            platform).restart_core,
        patch.verge_redir_port is Some && !(platform is Windows) ==> asked_flags(patch,
            platform).restart_core,
        patch.verge_tproxy_enabled is Some && platform is Linux ==> asked_flags(patch,
            platform).restart_core,
        patch.verge_tproxy_port is Some && platform is Linux ==> asked_flags(patch,
            platform).restart_core,
        patch.enable_tun_mode == Some(true) && platform is Linux ==> asked_flags(patch,
            platform).restart_core,
        asked_flags(patch, platform).clash_config ==> patch.enable_tun_mode is Some,
        asked_flags(patch, platform).systray_menu ==> patch.enable_tun_mode is Some ||
            patch.enable_system_proxy is Some || patch.language is Some || patch.hotkeys is Some
            || patch.tray_proxy_groups_display_mode is Some || patch.tray_inline_outbound_modes is
            Some,
        asked_flags(patch, platform).systray_tooltip ==> patch.enable_tun_mode is Some ||
            patch.enable_system_proxy is Some || patch.language is Some,
        asked_flags(patch, platform).systray_icon ==> patch.enable_tun_mode is Some ||
            patch.enable_system_proxy is Some || patch.common_tray_icon is Some ||
            patch.sysproxy_tray_icon is Some || patch.tun_tray_icon is Some || (patch.tray_icon is
            Some && platform is MacOs) || (patch.enable_tray_speed is Some && platform is MacOs),
        asked_flags(patch, platform).sys_proxy ==> patch.enable_system_proxy is Some ||
            patch.system_proxy_bypass is Some || patch.pac_file_content is Some ||
            patch.proxy_auto_config is Some || patch.enable_proxy_guard is Some ||
            patch.proxy_guard_duration is Some,
        asked_flags(patch, platform).verge_config ==> patch.enable_global_hotkey is Some ||
            patch.home_cards is Some,
        asked_flags(patch, platform).launch ==> patch.enable_auto_launch is Some,
        asked_flags(patch, platform).language ==> patch.language is Some,
        asked_flags(patch, platform).hotkey ==> patch.hotkeys is Some,
        asked_flags(patch, platform).systray_click_behavior ==> patch.tray_event is Some,
        asked_flags(patch, platform).light_weight ==> patch.enable_auto_light_weight_mode is Some,
        asked_flags(patch, platform).log_level ==> patch.app_log_level is Some,
        asked_flags(patch, platform).log_file ==> patch.app_log_max_size is Some ||
            patch.app_log_max_count is Some,
        asked_flags(patch, platform).restart_core ==> patch.verge_socks_enabled is Some ||
            patch.verge_http_enabled is Some || patch.verge_socks_port is Some || patch.verge_port
            is Some || patch.verge_mixed_port is Some || patch.enable_external_controller is Some
            || (patch.verge_redir_enabled is Some && !(platform is Windows)) ||
            (patch.verge_redir_port is Some && !(platform is Windows)) ||
            (patch.verge_tproxy_enabled is Some && platform is Linux) || (patch.verge_tproxy_port
            is Some && platform is Linux) || (patch.enable_tun_mode == Some(true) && platform is
            Linux),
{
}

/// The flags that do not touch the core's configuration are all the others.
pub proof fn law_only_two_flags_touch_the_core(flags: UpdateFlags, f: UpdateFlag)
    ensures
        flags.minus(
            UpdateFlags::nothing().with(UpdateFlag::RestartCore).plus(
                UpdateFlags::nothing().with(UpdateFlag::ClashConfig),
            ),
        ).has(f) <==> flags.has(f) && f != UpdateFlag::RestartCore && f != UpdateFlag::ClashConfig,
        UpdateFlags::tray().has(f) <==> f == UpdateFlag::SystrayMenu || f
            == UpdateFlag::SystrayTooltip || f == UpdateFlag::SystrayIcon,
{
}

/// A set has a flag exactly where the field of that name is set.
pub proof fn law_flags_stand_in_their_fields(flags: UpdateFlags)
    ensures
        flags.has(UpdateFlag::RestartCore) == flags.restart_core,
        flags.has(UpdateFlag::ClashConfig) == flags.clash_config,
        flags.has(UpdateFlag::VergeConfig) == flags.verge_config,
        flags.has(UpdateFlag::Launch) == flags.launch,
        flags.has(UpdateFlag::SysProxy) == flags.sys_proxy,
        flags.has(UpdateFlag::SystrayIcon) == flags.systray_icon,
        flags.has(UpdateFlag::Hotkey) == flags.hotkey,
        flags.has(UpdateFlag::SystrayMenu) == flags.systray_menu,
        flags.has(UpdateFlag::SystrayTooltip) == flags.systray_tooltip,
        flags.has(UpdateFlag::SystrayClickBehavior) == flags.systray_click_behavior,
        flags.has(UpdateFlag::LightWeight) == flags.light_weight,
        flags.has(UpdateFlag::Language) == flags.language,
        flags.has(UpdateFlag::LogLevel) == flags.log_level,
        flags.has(UpdateFlag::LogFile) == flags.log_file,
{
}

} // verus!
