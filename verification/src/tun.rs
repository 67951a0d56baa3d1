//! The TUN section of the runtime configuration.

use crate::settings::IRuntime;
use crate::yaml::{
    mapping_clone, mapping_equal, mapping_get, mapping_insert, mapping_new, value_as_bool,
    value_as_mapping, value_as_str, value_from_mapping,
};
use serde_yaml_ng::{Mapping, Value};
use vstd::prelude::*;

verus! {

/// The TUN section of a configuration: the mapping under the key `tun`.
pub open spec fn tun_section(runtime: IRuntime) -> Option<Mapping> {
    match runtime.config {
        Some(config) => if crate::yaml::yaml_entries(config).contains_key("tun"@) {
            crate::yaml::yaml_mapping(crate::yaml::yaml_entries(config)["tun"@])
        } else {
            None
        },
        None => None,
    }
}

/// The value under a key of an optional mapping.
pub open spec fn section_value(section: Option<Mapping>, key: Seq<char>) -> Option<Value> {
    match section {
        Some(m) => if crate::yaml::yaml_entries(m).contains_key(key) {
            Some(crate::yaml::yaml_entries(m)[key])
        } else {
            None
        },
        None => None,
    }
}

/// Whether a configuration turns TUN on.
pub open spec fn tun_enabled(runtime: IRuntime) -> bool {
    match section_value(tun_section(runtime), "enable"@) {
        Some(v) => crate::yaml::yaml_bool(v) == Some(true),
        None => false,
    }
}

/// The name a configuration gives the TUN device.
pub open spec fn tun_device(runtime: IRuntime) -> Option<Seq<char>> {
    match section_value(tun_section(runtime), "device"@) {
        Some(v) => crate::yaml::yaml_text(v),
        None => None,
    }
}

fn find_tun(runtime: &IRuntime) -> (r: Option<&Mapping>)
    ensures
        r is Some <==> tun_section(*runtime) is Some,
        r is Some ==> *(r->0) == tun_section(*runtime)->0,
{
    match &runtime.config {
        Some(config) => match mapping_get(config, "tun") {
            Some(value) => value_as_mapping(value),
            None => None,
        },
        None => None,
    }
}

/// The TUN section of a configuration.
pub fn runtime_windows_tun_config(runtime: &IRuntime) -> (r: Option<Mapping>)
    ensures
        r == tun_section(*runtime),
{
    match find_tun(runtime) {
        Some(tun) => Some(mapping_clone(tun)),
        None => None,
    }
}

/// Whether two configurations have different TUN sections.
pub open spec fn tun_differs(before: IRuntime, after: IRuntime) -> bool {
    match (tun_section(before), tun_section(after)) {
        (Some(a), Some(b)) => !crate::yaml::yaml_equal(a, b),
        (None, None) => false,
        _ => true,
    }
}

/// Whether going from one configuration to another changes the TUN section. A
/// change of the switch or of the device never goes unseen, and a section that
/// stays as it is never counts as changed.
pub fn windows_tun_changed(before: &IRuntime, after: &IRuntime) -> (r: bool)
    ensures
        r == tun_differs(*before, *after),
        tun_section(*before) == tun_section(*after) ==> !r,
        tun_enabled(*before) != tun_enabled(*after) ==> r,
        tun_device(*before) != tun_device(*after) ==> r,
{
    match (find_tun(before), find_tun(after)) {
        (Some(a), Some(b)) => {
            let same = mapping_equal(a, b);
            assert(same ==> (crate::yaml::yaml_entries(*a).contains_key("enable"@)
                <==> crate::yaml::yaml_entries(*b).contains_key("enable"@)));
            assert(same ==> (crate::yaml::yaml_entries(*a).contains_key("device"@)
                <==> crate::yaml::yaml_entries(*b).contains_key("device"@)));
            !same
        },
        (None, None) => false,
        _ => true,
    }
}

/// Whether a configuration turns TUN on, and the name it gives the device.
pub fn windows_runtime_tun(runtime: &IRuntime) -> (r: (bool, Option<&str>))
    ensures
        r.0 == tun_enabled(*runtime),
        crate::text::str_view(r.1) == tun_device(*runtime),
{
    match find_tun(runtime) {
        Some(tun) => {
            let enable = match mapping_get(tun, "enable") {
                Some(value) => match value_as_bool(value) {
                    Some(on) => on,
                    None => false,
                },
                None => false,
            };
            let device = match mapping_get(tun, "device") {
                Some(value) => value_as_str(value),
                None => None,
            };
            (enable, device)
        },
        None => (false, None),
    }
}

/// The patch that puts a TUN section into the core's configuration: it holds
/// that section and nothing else.
pub fn tun_patch(tun: &Mapping) -> (r: Mapping)
    ensures
        tun_section((IRuntime { config: Some(r) })) == Some(*tun),
        forall|k: Seq<char>| #[trigger]
            crate::yaml::yaml_entries(r).contains_key(k) <==> k == "tun"@,
{
    let mut patch = mapping_new();
    mapping_insert(&mut patch, "tun", value_from_mapping(mapping_clone(tun)));
    patch
}

/// The configuration that is in effect: the latest one, or the committed one
/// where no later one has been generated.
pub fn effective_runtime<'a>(latest: &'a IRuntime, committed: &'a IRuntime) -> (r: &'a IRuntime)
    ensures
        *r == (if latest.config is Some {
            *latest
        } else {
            *committed
        }),
{
    if latest.config.is_some() {
        latest
    } else {
        committed
    }
}

/// TUN is read from the mapping under the key `tun`: it is on where that says
/// `enable: true`, and its device is the text under `device`.
pub proof fn law_tun_is_read_from_its_section(config: Mapping, section: Mapping)
    requires
        crate::yaml::yaml_entries(config).contains_key("tun"@),
        crate::yaml::yaml_mapping(crate::yaml::yaml_entries(config)["tun"@]) == Some(section),
    ensures
        ({
            let runtime = IRuntime { config: Some(config) };
            let entries = crate::yaml::yaml_entries(section);
            &&& tun_section(runtime) == Some(section)
            &&& tun_enabled(runtime) <==> entries.contains_key("enable"@) && crate::yaml::yaml_bool(
                entries["enable"@],
            ) == Some(true)
            &&& entries.contains_key("device"@) ==> tun_device(runtime) == crate::yaml::yaml_text(
                entries["device"@],
            )
            &&& !entries.contains_key("device"@) ==> tun_device(runtime) is None
        }),
{
}

/// A configuration without a TUN section has TUN off, and no device.
pub proof fn law_tun_is_off_without_a_section(runtime: IRuntime)
    requires
        runtime.config is None || !crate::yaml::yaml_entries(runtime.config->0).contains_key(
            "tun"@,
        ) || crate::yaml::yaml_mapping(crate::yaml::yaml_entries(runtime.config->0)["tun"@])
            is None,
    ensures
        tun_section(runtime) is None,
        !tun_enabled(runtime),
        tun_device(runtime) is None,
{
}

/// A TUN section that comes, goes or becomes another one is a change, and one
/// that stays is none.
pub proof fn law_tun_changes_with_its_section(before: IRuntime, after: IRuntime)
    ensures
        tun_section(before) is Some && tun_section(after) is None ==> tun_differs(before, after),
        tun_section(before) is None && tun_section(after) is Some ==> tun_differs(before, after),
        tun_section(before) is None && tun_section(after) is None ==> !tun_differs(before, after),
        tun_section(before) is Some && tun_section(after) is Some ==> (tun_differs(before, after)
            <==> !crate::yaml::yaml_equal(tun_section(before)->0, tun_section(after)->0)),
{
}

} // verus!
