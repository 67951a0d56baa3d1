//! What is done, one thing after the other, when the settings change.

use crate::flags::{non_runtime_side_effect_flags, UpdateFlag, UpdateFlags};
use crate::platform::Platform;
use crate::settings::IVerge;
use vstd::prelude::*;

verus! {

/// Something that is done when the settings change.
#[derive(Debug, Clone, Copy, PartialEq, Eq, Structural)]
pub enum Effect {
    /// To generate the core's configuration anew.
    Generate,
    RestartCore,
    /// To generate, check and apply the core's configuration.
    UpdateConfig,
    /// To check and apply the configuration that has been generated, the ICS
    /// recovery target not following it.
    ApplyGenerated,
    /// To make the patch of the core's settings in its configuration too.
    PatchRuntime,
    RefreshClash,
    RefreshVerge,
    UpdateLaunch,
    /// To switch to the language that the patch gives.
    SetLocale,
    UpdateSysproxy,
    RefreshGuard,
    /// To register the hotkeys that the patch gives.
    UpdateHotkeys,
    UpdateTrayMenu,
    UpdateTrayIcon,
    UpdateTrayMenuAndIcon,
    UpdateTraySpeed(bool),
    UpdateTrayTooltip,
    UpdateTrayClickBehavior,
    SetLightWeight(bool),
    /// To log from the level on that the patch gives.
    UpdateLogLevel,
    UpdateLogFiles { max_size: u64, max_count: usize },
    /// To set the ICS recovery target to what the settings ask for.
    ConfigureIcs,
    /// To take the edited settings over.
    CommitDrafts,
    SaveClash,
    SaveVerge,
}

/// `effects`, if `condition` holds, and otherwise nothing.
pub open spec fn when(condition: bool, effects: Seq<Effect>) -> Seq<Effect> {
    if condition {
        effects
    } else {
        Seq::empty()
    }
}

/// What changing the tray icon takes; macOS shows the speed there.
pub open spec fn tray_icon_effects(patch: IVerge, platform: Platform) -> Seq<Effect> {
    match patch.enable_tray_speed {
        Some(speed) => if platform is MacOs {
            seq![Effect::UpdateTrayIcon, Effect::UpdateTraySpeed(speed)]
        } else {
            seq![Effect::UpdateTrayIcon]
        },
        None => seq![Effect::UpdateTrayIcon],
    }
}

/// The log files that a patch asks for.
pub open spec fn log_files_effect(patch: IVerge) -> Effect {
    Effect::UpdateLogFiles {
        max_size: match patch.app_log_max_size {
            Some(size) => size,
            None => 128,
        },
        max_count: match patch.app_log_max_count {
            Some(count) => count,
            None => 8,
        },
    }
}

/// What is done for one flag.
pub open spec fn flag_effects(flag: UpdateFlag, patch: IVerge, platform: Platform) -> Seq<Effect> {
    match flag {
        UpdateFlag::RestartCore => seq![Effect::Generate, Effect::RestartCore],
        UpdateFlag::ClashConfig => seq![Effect::UpdateConfig, Effect::RefreshClash],
        UpdateFlag::VergeConfig => seq![Effect::RefreshVerge],
        UpdateFlag::Launch => seq![Effect::UpdateLaunch],
        UpdateFlag::Language => when(patch.language is Some, seq![Effect::SetLocale]),
        UpdateFlag::SysProxy => seq![Effect::UpdateSysproxy, Effect::RefreshGuard],
        UpdateFlag::Hotkey => when(patch.hotkeys is Some, seq![Effect::UpdateHotkeys]),
        UpdateFlag::SystrayMenu => seq![Effect::UpdateTrayMenu],
        UpdateFlag::SystrayIcon => tray_icon_effects(patch, platform),
        UpdateFlag::SystrayTooltip => seq![Effect::UpdateTrayTooltip],
        UpdateFlag::SystrayClickBehavior => seq![Effect::UpdateTrayClickBehavior],
        UpdateFlag::LightWeight => seq![
            Effect::SetLightWeight(patch.enable_auto_light_weight_mode == Some(true)),
        ],
        UpdateFlag::LogLevel => seq![Effect::UpdateLogLevel],
        UpdateFlag::LogFile => seq![log_files_effect(patch)],
    }
}

/// The order in which flags are seen to.
pub open spec fn flag_order() -> Seq<UpdateFlag> {
    seq![
        UpdateFlag::RestartCore,
        UpdateFlag::ClashConfig,
        UpdateFlag::VergeConfig,
        UpdateFlag::Launch,
        UpdateFlag::Language,
        UpdateFlag::SysProxy,
        UpdateFlag::Hotkey,
        UpdateFlag::SystrayMenu,
        UpdateFlag::SystrayIcon,
        UpdateFlag::SystrayTooltip,
        UpdateFlag::SystrayClickBehavior,
        UpdateFlag::LightWeight,
        UpdateFlag::LogLevel,
        UpdateFlag::LogFile,
    ]
}

/// What is done for those of the flags in `order` that are in the set.
pub open spec fn effects_in_order(
    order: Seq<UpdateFlag>,
    flags: UpdateFlags,
    patch: IVerge,
    platform: Platform,
) -> Seq<Effect>
    decreases order.len(),
{
    if order.len() == 0 {
        Seq::empty()
    } else {
        effects_in_order(order.drop_last(), flags, patch, platform) + when(
            flags.has(order.last()),
            flag_effects(order.last(), patch, platform),
        )
    }
}

fn flags_in_order() -> (r: Vec<UpdateFlag>)
    ensures
        r@ == flag_order(),
{
    let mut r: Vec<UpdateFlag> = Vec::new();
    r.push(UpdateFlag::RestartCore);
    r.push(UpdateFlag::ClashConfig);
    r.push(UpdateFlag::VergeConfig);
    r.push(UpdateFlag::Launch);
    r.push(UpdateFlag::Language);
    r.push(UpdateFlag::SysProxy);
    r.push(UpdateFlag::Hotkey);
    r.push(UpdateFlag::SystrayMenu);
    r.push(UpdateFlag::SystrayIcon);
    r.push(UpdateFlag::SystrayTooltip);
    r.push(UpdateFlag::SystrayClickBehavior);
    r.push(UpdateFlag::LightWeight);
    r.push(UpdateFlag::LogLevel);
    r.push(UpdateFlag::LogFile);
    assert(r@ =~= flag_order());
    r
}

/// Adds what is done for one flag.
fn push_flag_effects(
    effects: &mut Vec<Effect>,
    flag: UpdateFlag,
    patch: &IVerge,
    platform: Platform,
)
    ensures
        final(effects)@ == old(effects)@ + flag_effects(flag, *patch, platform),
{
    let ghost before = effects@;
    match flag {
        UpdateFlag::RestartCore => {
            effects.push(Effect::Generate);
            effects.push(Effect::RestartCore);
        },
        UpdateFlag::ClashConfig => {
            effects.push(Effect::UpdateConfig);
            effects.push(Effect::RefreshClash);
        },
        UpdateFlag::VergeConfig => effects.push(Effect::RefreshVerge),
        UpdateFlag::Launch => effects.push(Effect::UpdateLaunch),
        UpdateFlag::Language => if patch.language.is_some() {
            effects.push(Effect::SetLocale);
        },
        UpdateFlag::SysProxy => {
            effects.push(Effect::UpdateSysproxy);
            effects.push(Effect::RefreshGuard);
        },
        UpdateFlag::Hotkey => if patch.hotkeys.is_some() {
            effects.push(Effect::UpdateHotkeys);
        },
        UpdateFlag::SystrayMenu => effects.push(Effect::UpdateTrayMenu),
        UpdateFlag::SystrayIcon => {
            effects.push(Effect::UpdateTrayIcon);
            match (platform, patch.enable_tray_speed) {
                (Platform::MacOs, Some(speed)) => effects.push(Effect::UpdateTraySpeed(speed)),
                _ => {},
            }
        },
        UpdateFlag::SystrayTooltip => effects.push(Effect::UpdateTrayTooltip),
        UpdateFlag::SystrayClickBehavior => effects.push(Effect::UpdateTrayClickBehavior),
        UpdateFlag::LightWeight => effects.push(
            Effect::SetLightWeight(patch.enable_auto_light_weight_mode.unwrap_or(false)),
        ),
        UpdateFlag::LogLevel => effects.push(Effect::UpdateLogLevel),
        UpdateFlag::LogFile => effects.push(
            Effect::UpdateLogFiles {
                max_size: patch.app_log_max_size.unwrap_or(128),
                max_count: patch.app_log_max_count.unwrap_or(8),
            },
        ),
    }
    assert(effects@ =~= before + flag_effects(flag, *patch, platform));
}

/// Lists what a set of flags has done for a patch of the settings, in order.
pub fn process_terminated_flags(update_flags: UpdateFlags, patch: &IVerge, platform: Platform) -> (r:
    Vec<Effect>)
    ensures
        r@ == effects_in_order(flag_order(), update_flags, *patch, platform),
{
    let order = flags_in_order();
    let mut effects: Vec<Effect> = Vec::new();
    let mut i: usize = 0;
    assert(order@.take(0) =~= Seq::empty());
    while i < order.len()
        invariant
            i <= order.len(),
            order@ == flag_order(),
            effects@ == effects_in_order(order@.take(i as int), update_flags, *patch, platform),
        decreases order.len() - i,
    {
        assert(order@.take(i + 1).drop_last() =~= order@.take(i as int));
        let ghost before = effects@;
        if update_flags.contains_flag(order[i]) {
            push_flag_effects(&mut effects, order[i], patch, platform);
        }
        assert(effects@ =~= before + when(
            update_flags.has(order@[i as int]),
            flag_effects(order@[i as int], *patch, platform),
        ));
        i = i + 1;
    }
    assert(order@.take(i as int) =~= order@);
    effects
}

/// The flags that are seen to again when a change of the settings is undone,
/// in order: those of `order` that are in the set and do not touch the core's
/// configuration.
pub open spec fn undone_flags(order: Seq<UpdateFlag>, flags: UpdateFlags) -> Seq<UpdateFlag>
    decreases order.len(),
{
    if order.len() == 0 {
        Seq::empty()
    } else {
        let earlier = undone_flags(order.drop_last(), flags);
        let last = order.last();
        if flags.has(last) && !(last is RestartCore) && !(last is ClashConfig) {
            earlier.push(last)
        } else {
            earlier
        }
    }
}

/// Lists the flags that are seen to again, for the settings of before, when a
/// change of the settings is undone.
pub fn restore_non_runtime_side_effects(update_flags: UpdateFlags) -> (r: Vec<UpdateFlag>)
    ensures
        r@ == undone_flags(flag_order(), update_flags),
{
    let order = flags_in_order();
    let rollback_flags = non_runtime_side_effect_flags(update_flags);
    let mut r: Vec<UpdateFlag> = Vec::new();
    let mut i: usize = 0;
    assert(order@.take(0) =~= Seq::empty());
    while i < order.len()
        invariant
            i <= order.len(),
            order@ == flag_order(),
            rollback_flags == (UpdateFlags {
                restart_core: false,
                clash_config: false,
                ..update_flags
            }),
            r@ == undone_flags(order@.take(i as int), update_flags),
        decreases order.len() - i,
    {
        assert(order@.take(i + 1).drop_last() =~= order@.take(i as int));
        assert(order@.take(i + 1).last() == order@[i as int]);
        if rollback_flags.contains_flag(order[i]) {
            r.push(order[i]);
        }
        i = i + 1;
    }
    assert(order@.take(i as int) =~= order@);
    r
}

/// The settings of before, as a patch that undoes another one: hotkeys that
/// were not given are none, a language that was not given is the system's, and
/// on macOS a speed display that was not given is off.
pub open spec fn rollback_patch_of(
    before: IVerge,
    flags: UpdateFlags,
    platform: Platform,
    patch: IVerge,
    system_language: Seq<char>,
) -> bool {
    &&& patch == IVerge {
        hotkeys: patch.hotkeys,
        language: patch.language,
        enable_tray_speed: patch.enable_tray_speed,
        ..before
    }
    &&& if flags.hotkey && before.hotkeys is None {
        patch.hotkeys is Some && patch.hotkeys->0@.len() == 0
    } else {
        patch.hotkeys == before.hotkeys
    }
    &&& if flags.language && before.language is None {
        patch.language is Some && patch.language->0@ == system_language
    } else {
        patch.language == before.language
    }
    &&& if platform is MacOs && flags.systray_icon && before.enable_tray_speed is None {
        patch.enable_tray_speed == Some(false)
    } else {
        patch.enable_tray_speed == before.enable_tray_speed
    }
}

/// Makes the settings of before a patch that undoes another one.
pub fn rollback_patch(
    before: IVerge,
    update_flags: UpdateFlags,
    platform: Platform,
    system_language: &str,
) -> (r: IVerge)
    ensures
        rollback_patch_of(before, update_flags, platform, r, system_language@),
{
    let rollback_flags = non_runtime_side_effect_flags(update_flags);
    let mut patch = before;
    if rollback_flags.contains_flag(UpdateFlag::Hotkey) && patch.hotkeys.is_none() {
        patch.hotkeys = Some(Vec::new());
    }
    if rollback_flags.contains_flag(UpdateFlag::Language) && patch.language.is_none() {
        patch.language = Some(system_language.to_owned());
    }
    let macos = match platform {
        Platform::MacOs => true,
        _ => false,
    };
    if macos && rollback_flags.contains_flag(UpdateFlag::SystrayIcon)
        && patch.enable_tray_speed.is_none() {
        patch.enable_tray_speed = Some(false);
    }
    patch
}

/// What one side effect of a change takes to be undone: the patch that undoes
/// the change, and what that side effect has done for it, in order.
pub fn undo_side_effect(
    flag: UpdateFlag,
    before: IVerge,
    update_flags: UpdateFlags,
    platform: Platform,
    system_language: &str,
) -> (r: (IVerge, Vec<Effect>))
    ensures
        rollback_patch_of(before, update_flags, platform, r.0, system_language@),
        r.1@ == effects_in_order(flag_order(), UpdateFlags::nothing().with(flag), r.0, platform),
{
    let patch = rollback_patch(before, update_flags, platform, system_language);
    let effects = process_terminated_flags(UpdateFlags::of(flag), &patch, platform);
    (patch, effects)
}

/// Everything that a change of the settings had done, and that does not touch
/// the core's configuration, is seen to again when it is undone, once.
pub proof fn law_every_side_effect_is_undone(flags: UpdateFlags, flag: UpdateFlag)
    ensures
        undone_flags(flag_order(), flags).contains(flag) <==> flags.has(flag) && !(
        flag is RestartCore) && !(flag is ClashConfig),
        undone_flags(flag_order(), flags).no_duplicates(),
{
    let order = flag_order();
    lemma_undone_flags(order, flags, flag);
    assert(order[0] is RestartCore && order[1] is ClashConfig);
    assert(order[2] is VergeConfig && order[3] is Launch && order[4] is Language);
    assert(order[5] is SysProxy && order[6] is Hotkey && order[7] is SystrayMenu);
    assert(order[8] is SystrayIcon && order[9] is SystrayTooltip);
    assert(order[10] is SystrayClickBehavior && order[11] is LightWeight);
    assert(order[12] is LogLevel && order[13] is LogFile);
    assert(order.contains(flag));
}

proof fn lemma_undone_flags(order: Seq<UpdateFlag>, flags: UpdateFlags, flag: UpdateFlag)
    requires
        order.no_duplicates(),
    ensures
        undone_flags(order, flags).contains(flag) <==> order.contains(flag) && flags.has(flag)
            && !(flag is RestartCore) && !(flag is ClashConfig),
        undone_flags(order, flags).no_duplicates(),
    decreases order.len(),
{
    if order.len() > 0 {
        let rest = order.drop_last();
        let earlier = undone_flags(rest, flags);
        let last = order.last();
        lemma_undone_flags(rest, flags, flag);
        lemma_undone_flags(rest, flags, last);
        assert(order =~= rest.push(last));
        if rest.contains(last) {
            let i = choose|i: int| 0 <= i < rest.len() && rest[i] == last;
            assert(order[i] == order[order.len() - 1]);
        }
        if order.contains(flag) && flag != last {
            let i = choose|i: int| 0 <= i < order.len() && order[i] == flag;
            assert(rest[i] == flag);
        }
        if rest.contains(flag) {
            let i = choose|i: int| 0 <= i < rest.len() && rest[i] == flag;
            assert(order[i] == flag);
        }
        assert(order[order.len() - 1] == last);
        let all = undone_flags(order, flags);
        if all != earlier {
            assert(all =~= earlier.push(last));
            assert(all[all.len() - 1] == last);
            if earlier.contains(flag) {
                let i = choose|i: int| 0 <= i < earlier.len() && earlier[i] == flag;
                assert(all[i] == flag);
            }
            if all.contains(flag) && flag != last {
                let i = choose|i: int| 0 <= i < all.len() && all[i] == flag;
                assert(earlier[i] == flag);
            }
        }
    }
}

/// A patch that gives nothing has nothing done.
pub proof fn law_blank_patch_has_nothing_done(platform: Platform)
    ensures
        effects_in_order(
            flag_order(),
            crate::flags::asked_flags(IVerge::blank(), platform),
            IVerge::blank(),
            platform,
        ) == Seq::<Effect>::empty(),
{
    lemma_no_flags_no_effects(flag_order(), IVerge::blank(), platform);
    crate::flags::law_blank_patch_asks_for_nothing(platform);
}

proof fn lemma_no_flags_no_effects(order: Seq<UpdateFlag>, patch: IVerge, platform: Platform)
    ensures
        effects_in_order(order, UpdateFlags::nothing(), patch, platform) == Seq::<Effect>::empty(),
    decreases order.len(),
{
    if order.len() > 0 {
        lemma_no_flags_no_effects(order.drop_last(), patch, platform);
    }
}

/// Each flag has its own done, and none another's: what is done for it goes by
/// the settings that the patch gives.
pub proof fn law_flag_has_its_own_done(patch: IVerge, platform: Platform)
    ensures
        flag_effects(UpdateFlag::RestartCore, patch, platform) == seq![
            Effect::Generate,
            Effect::RestartCore,
        ],
        flag_effects(UpdateFlag::ClashConfig, patch, platform) == seq![
            Effect::UpdateConfig,
            Effect::RefreshClash,
        ],
        flag_effects(UpdateFlag::VergeConfig, patch, platform) == seq![Effect::RefreshVerge],
        flag_effects(UpdateFlag::Launch, patch, platform) == seq![Effect::UpdateLaunch],
        flag_effects(UpdateFlag::SysProxy, patch, platform) == seq![
            Effect::UpdateSysproxy,
            Effect::RefreshGuard,
        ],
        flag_effects(UpdateFlag::SystrayMenu, patch, platform) == seq![Effect::UpdateTrayMenu],
        flag_effects(UpdateFlag::SystrayTooltip, patch, platform) == seq![
            Effect::UpdateTrayTooltip,
        ],
        flag_effects(UpdateFlag::SystrayClickBehavior, patch, platform) == seq![
            Effect::UpdateTrayClickBehavior,
        ],
        flag_effects(UpdateFlag::LogLevel, patch, platform) == seq![Effect::UpdateLogLevel],
        patch.language is Some ==> flag_effects(UpdateFlag::Language, patch, platform) == seq![
            Effect::SetLocale,
        ],
        patch.language is None ==> flag_effects(UpdateFlag::Language, patch, platform).len() == 0,
        patch.hotkeys is Some ==> flag_effects(UpdateFlag::Hotkey, patch, platform) == seq![
            Effect::UpdateHotkeys,
        ],
        patch.hotkeys is None ==> flag_effects(UpdateFlag::Hotkey, patch, platform).len() == 0,
        patch.enable_tray_speed is None || !(platform is MacOs) ==> flag_effects(
            UpdateFlag::SystrayIcon,
            patch,
            platform,
        ) == seq![Effect::UpdateTrayIcon],
        platform is MacOs ==> (patch.enable_tray_speed matches Some(on) ==> flag_effects(
            UpdateFlag::SystrayIcon,
            patch,
            platform,
        ) == seq![Effect::UpdateTrayIcon, Effect::UpdateTraySpeed(on)]),
        flag_effects(UpdateFlag::LightWeight, patch, platform).len() == 1,
        flag_effects(UpdateFlag::LightWeight, patch, platform)[0] == Effect::SetLightWeight(true)
            <==> patch.enable_auto_light_weight_mode == Some(true),
        flag_effects(UpdateFlag::LightWeight, patch, platform)[0] == Effect::SetLightWeight(false)
            <==> patch.enable_auto_light_weight_mode != Some(true),
        flag_effects(UpdateFlag::LogFile, patch, platform).len() == 1,
        flag_effects(UpdateFlag::LogFile, patch, platform)[0] matches Effect::UpdateLogFiles {
            max_size,
            max_count,
        } && {
            &&& patch.app_log_max_size is Some ==> patch.app_log_max_size == Some(max_size)
            &&& patch.app_log_max_size is None ==> max_size == 128
            &&& patch.app_log_max_count is Some ==> patch.app_log_max_count == Some(max_count)
            &&& patch.app_log_max_count is None ==> max_count == 8
        },
{
}

/// The core is seen to first, then the user interface and the system, and the
/// logs last; every flag has its turn.
pub proof fn law_flags_have_their_turn()
    ensures
        flag_order().len() == 14,
        flag_order()[0] is RestartCore,
        flag_order()[1] is ClashConfig,
        flag_order()[2] is VergeConfig,
        flag_order()[3] is Launch,
        flag_order()[4] is Language,
        flag_order()[5] is SysProxy,
        flag_order()[6] is Hotkey,
        flag_order()[7] is SystrayMenu,
        flag_order()[8] is SystrayIcon,
        flag_order()[9] is SystrayTooltip,
        flag_order()[10] is SystrayClickBehavior,
        flag_order()[11] is LightWeight,
        flag_order()[12] is LogLevel,
        flag_order()[13] is LogFile,
{
}

/// What is done for a set of flags is, flag after flag, what is done for each
/// flag of the set: in its turn, in full, right behind what is done for the
/// flags before it. A flag that is not in the set has nothing done.
pub proof fn law_each_flag_is_seen_to(
    order: Seq<UpdateFlag>,
    flags: UpdateFlags,
    patch: IVerge,
    platform: Platform,
    i: int,
)
    requires
        0 <= i < order.len(),
    ensures
        ({
            let all = effects_in_order(order, flags, patch, platform);
            let before = effects_in_order(order.take(i), flags, patch, platform);
            let through = effects_in_order(order.take(i + 1), flags, patch, platform);
            let own = flag_effects(order[i], patch, platform);
            &&& before.is_prefix_of(through) && through.is_prefix_of(all)
            &&& flags.has(order[i]) ==> through == before + own
            &&& !flags.has(order[i]) ==> through == before
        }),
        effects_in_order(order.take(0), flags, patch, platform).len() == 0,
        effects_in_order(order.take(order.len() as int), flags, patch, platform)
            == effects_in_order(order, flags, patch, platform),
    decreases order.len(),
{
    let all = effects_in_order(order, flags, patch, platform);
    let n = order.len() as int;
    assert(order.take(n) =~= order);
    assert(order.take(i + 1).drop_last() =~= order.take(i));
    if i < n - 1 {
        let rest = order.drop_last();
        law_each_flag_is_seen_to(rest, flags, patch, platform, i);
        assert(rest.take(i) =~= order.take(i));
        assert(rest.take(i + 1) =~= order.take(i + 1));
        let through = effects_in_order(order.take(i + 1), flags, patch, platform);
        let shorter = effects_in_order(rest, flags, patch, platform);
        assert(through.is_prefix_of(shorter));
        assert(shorter.is_prefix_of(all));
    }
}

/// The system proxy is set, and its guard brought up to date, for every change
/// that asks for it.
pub proof fn law_system_proxy_is_set(flags: UpdateFlags, patch: IVerge, platform: Platform)
    requires
        flags.sys_proxy,
    ensures
        effects_in_order(flag_order(), flags, patch, platform).contains(Effect::UpdateSysproxy),
        effects_in_order(flag_order(), flags, patch, platform).contains(Effect::RefreshGuard),
{
    let all = effects_in_order(flag_order(), flags, patch, platform);
    let before = effects_in_order(flag_order().take(5), flags, patch, platform);
    let through = effects_in_order(flag_order().take(6), flags, patch, platform);
    law_each_flag_is_seen_to(flag_order(), flags, patch, platform, 5);
    law_flag_has_its_own_done(patch, platform);
    let at = before.len() as int;
    assert(through[at] == Effect::UpdateSysproxy && through[at + 1] == Effect::RefreshGuard);
    assert(all[at] == through[at] && all[at + 1] == through[at + 1]);
}

/// A change that restarts the core generates its configuration and restarts it
/// before anything else is done.
pub proof fn law_core_is_seen_to_first(flags: UpdateFlags, patch: IVerge, platform: Platform)
    requires
        flags.restart_core,
    ensures
        effects_in_order(flag_order(), flags, patch, platform).len() >= 2,
        effects_in_order(flag_order(), flags, patch, platform)[0] == Effect::Generate,
        effects_in_order(flag_order(), flags, patch, platform)[1] == Effect::RestartCore,
{
    law_each_flag_is_seen_to(flag_order(), flags, patch, platform, 0);
    law_flag_has_its_own_done(patch, platform);
    let through = effects_in_order(flag_order().take(1), flags, patch, platform);
    assert(through[0] == Effect::Generate && through[1] == Effect::RestartCore);
}

/// The patch that undoes a change holds the settings of before, where they were
/// given; what was not given is put to what it amounts to, but only where the
/// change had to do with it.
pub proof fn law_rollback_patch_holds_what_was(
    before: IVerge,
    flags: UpdateFlags,
    platform: Platform,
    patch: IVerge,
    system_language: Seq<char>,
)
    requires
        rollback_patch_of(before, flags, platform, patch, system_language),
    ensures
        before.hotkeys is Some || !flags.hotkey ==> patch.hotkeys == before.hotkeys,
        before.hotkeys is None && flags.hotkey ==> patch.hotkeys is Some
            && patch.hotkeys->0@.len() == 0,
        before.language is Some || !flags.language ==> patch.language == before.language,
        before.language is None && flags.language ==> patch.language is Some
            && patch.language->0@ == system_language,
        before.enable_tray_speed is Some || !flags.systray_icon || !(platform is MacOs)
            ==> patch.enable_tray_speed == before.enable_tray_speed,
        before.enable_tray_speed is None && flags.systray_icon && platform is MacOs
            ==> patch.enable_tray_speed == Some(false),
        patch == (IVerge {
            hotkeys: patch.hotkeys,
            language: patch.language,
            enable_tray_speed: patch.enable_tray_speed,
            ..before
        }),
{
}

/// Side effects are undone in the turn in which they were made.
pub proof fn law_side_effects_are_undone_in_turn(
    order: Seq<UpdateFlag>,
    flags: UpdateFlags,
    i: int,
)
    requires
        0 <= i < order.len(),
    ensures
        ({
            let before = undone_flags(order.take(i), flags);
            let through = undone_flags(order.take(i + 1), flags);
            let counts = flags.has(order[i]) && order[i] != UpdateFlag::RestartCore && order[i]
                != UpdateFlag::ClashConfig;
            &&& counts ==> through == before.push(order[i])
            &&& !counts ==> through == before
        }),
        undone_flags(order.take(0), flags).len() == 0,
        undone_flags(order.take(order.len() as int), flags) == undone_flags(order, flags),
{
    assert(order.take(i + 1).drop_last() =~= order.take(i));
    assert(order.take(order.len() as int) =~= order);
}

} // verus!
