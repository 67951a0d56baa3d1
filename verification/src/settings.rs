//! The settings that the controller's decisions read.

use serde_yaml_ng::Mapping;
use vstd::prelude::*;

verus! {

/// Application settings. As a patch, a field that is `None` is left alone.
#[derive(Debug, Clone)]
pub struct IVerge {
    pub app_log_level: Option<String>,
    pub app_log_max_size: Option<u64>,
    pub app_log_max_count: Option<usize>,
    pub language: Option<String>,
    pub tray_event: Option<String>,
    pub tray_icon: Option<String>,
    pub common_tray_icon: Option<bool>,
    pub sysproxy_tray_icon: Option<bool>,
    pub tun_tray_icon: Option<bool>,
    pub tray_proxy_groups_display_mode: Option<String>,
    pub tray_inline_outbound_modes: Option<bool>,
    pub enable_tray_speed: Option<bool>,
    pub enable_tun_mode: Option<bool>,
    pub enable_auto_launch: Option<bool>,
    pub enable_system_proxy: Option<bool>,
    pub enable_proxy_guard: Option<bool>,
    pub proxy_guard_duration: Option<u64>,
    pub proxy_auto_config: Option<bool>,
    pub pac_file_content: Option<String>,
    pub system_proxy_bypass: Option<String>,
    pub enable_global_hotkey: Option<bool>,
    pub hotkeys: Option<Vec<String>>,
    /// The layout of the home page, as text.
    pub home_cards: Option<String>,
    pub enable_auto_light_weight_mode: Option<bool>,
    pub enable_external_controller: Option<bool>,
    pub verge_mixed_port: Option<u16>,
    pub verge_socks_enabled: Option<bool>,
    pub verge_socks_port: Option<u16>,
    pub verge_http_enabled: Option<bool>,
    pub verge_port: Option<u16>,
    pub verge_redir_enabled: Option<bool>,
    pub verge_redir_port: Option<u16>,
    pub verge_tproxy_enabled: Option<bool>,
    pub verge_tproxy_port: Option<u16>,
    pub enable_windows_ics_recovery: Option<bool>,
    pub windows_ics_private_adapter_guid: Option<String>,
    pub windows_ics_private_adapter_name: Option<String>,
    pub clash_core: Option<String>,
}

impl IVerge {
    /// The settings in which nothing is given.
    pub open spec fn blank() -> IVerge {
        IVerge {
            app_log_level: None,
            app_log_max_size: None,
            app_log_max_count: None,
            language: None,
            tray_event: None,
            tray_icon: None,
            common_tray_icon: None,
            sysproxy_tray_icon: None,
            tun_tray_icon: None,
            tray_proxy_groups_display_mode: None,
            tray_inline_outbound_modes: None,
            enable_tray_speed: None,
            enable_tun_mode: None,
            enable_auto_launch: None,
            enable_system_proxy: None,
            enable_proxy_guard: None,
            proxy_guard_duration: None,
            proxy_auto_config: None,
            pac_file_content: None,
            system_proxy_bypass: None,
            enable_global_hotkey: None,
            hotkeys: None,
            home_cards: None,
            enable_auto_light_weight_mode: None,
            enable_external_controller: None,
            verge_mixed_port: None,
            verge_socks_enabled: None,
            verge_socks_port: None,
            verge_http_enabled: None,
            verge_port: None,
            verge_redir_enabled: None,
            verge_redir_port: None,
            verge_tproxy_enabled: None,
            verge_tproxy_port: None,
            enable_windows_ics_recovery: None,
            windows_ics_private_adapter_guid: None,
            windows_ics_private_adapter_name: None,
            clash_core: None,
        }
    }
}

impl Default for IVerge {
    fn default() -> (r: Self)
        ensures
            r == IVerge::blank(),
    {
        IVerge {
            app_log_level: None,
            app_log_max_size: None,
            app_log_max_count: None,
            language: None,
            tray_event: None,
            tray_icon: None,
            common_tray_icon: None,
            sysproxy_tray_icon: None,
            tun_tray_icon: None,
            tray_proxy_groups_display_mode: None,
            tray_inline_outbound_modes: None,
            enable_tray_speed: None,
            enable_tun_mode: None,
            enable_auto_launch: None,
            enable_system_proxy: None,
            enable_proxy_guard: None,
            proxy_guard_duration: None,
            proxy_auto_config: None,
            pac_file_content: None,
            system_proxy_bypass: None,
            enable_global_hotkey: None,
            hotkeys: None,
            home_cards: None,
            enable_auto_light_weight_mode: None,
            enable_external_controller: None,
            verge_mixed_port: None,
            verge_socks_enabled: None,
            verge_socks_port: None,
            verge_http_enabled: None,
            verge_port: None,
            verge_redir_enabled: None,
            verge_redir_port: None,
            verge_tproxy_enabled: None,
            verge_tproxy_port: None,
            enable_windows_ics_recovery: None,
            windows_ics_private_adapter_guid: None,
            windows_ics_private_adapter_name: None,
            clash_core: None,
        }
    }
}

/// The configuration the core runs on, where one has been generated.
#[derive(Clone)]
pub struct IRuntime {
    pub config: Option<Mapping>,
}

/// Whether an optional switch is on; one that is not given is off.
pub open spec fn switched_on(value: Option<bool>) -> bool {
    value == Some(true)
}

/// A switch is on only where it is given and on.
pub proof fn law_switch_is_off_unless_given()
    ensures
        switched_on(Some(true)),
        !switched_on(Some(false)),
        !switched_on(None),
{
}

} // verus!
