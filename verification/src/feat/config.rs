//! Changes of the settings.

use crate::effects::{process_terminated_flags, restore_non_runtime_side_effects, Effect};
use crate::error::{note_error, CoreError, Message, Note};
use crate::flags::{determine_update_flags, UpdateFlag, UpdateFlags};
use crate::manager::decisions::windows_ics_service_state_relevant;
use crate::manager::{CoreManager, RunningMode};
use crate::platform::Platform;
use crate::rollback::{RollbackFailures, RollbackPart};
use crate::service::scm::windows_ics_service_sync_required;
use crate::settings::IVerge;
use crate::text::{as_slice, non_blank, same_text};
use crate::transaction::Plan;
use crate::yaml::mapping_get;
use serde_yaml_ng::Mapping;
use vstd::prelude::*;
use vstd::string::*;

verus! {

/// Whether a patch of the core's settings gives something under `key`.
pub open spec fn gives(patch: Mapping, key: Seq<char>) -> bool {
    crate::yaml::yaml_entries(patch).contains_key(key)
}

/// What a patch of the core's settings takes: a restart, where it changes how
/// the core is talked to, and otherwise an update of its configuration.
pub open spec fn clash_steps(patch: Mapping) -> Seq<Effect> {
    (if gives(patch, "secret"@) || gives(patch, "external-controller"@) {
        seq![Effect::Generate, Effect::RestartCore]
    } else if gives(patch, "allow-lan"@) {
        seq![Effect::UpdateConfig]
    } else if gives(patch, "mode"@) {
        seq![Effect::UpdateTrayMenuAndIcon, Effect::PatchRuntime, Effect::UpdateConfig]
    } else {
        seq![Effect::PatchRuntime, Effect::UpdateConfig]
    }) + seq![Effect::RefreshClash, Effect::SaveClash]
}

/// The part that puts the ICS recovery target back, if it was read.
pub open spec fn service_part(snapshot: bool) -> Seq<RollbackPart> {
    if snapshot {
        seq![RollbackPart::Service]
    } else {
        Seq::empty()
    }
}

impl CoreManager {
    /// Whether a change can reach the recovery target that the service keeps.
    pub open spec fn reaches_target(self, before: Option<bool>, after: Option<bool>) -> bool {
        self.platform is Windows && (self.running_mode is Service || before == Some(true) || after
            == Some(true))
    }

    fn may_reach_target(&self, before: Option<bool>, after: Option<bool>) -> (r: bool)
        ensures
            r == self.reaches_target(before, after),
    {
        let windows = match self.platform {
            Platform::Windows => true,
            _ => false,
        };
        let running_as_service = match self.running_mode {
            RunningMode::Service => true,
            _ => false,
        };
        windows && windows_ics_service_sync_required(running_as_service, before, after)
    }
}

/// Plans a change of the core's settings; `recovery` is whether the ICS
/// recovery target is kept.
pub fn patch_clash(manager: &CoreManager, patch: &Mapping, recovery: Option<bool>) -> (r: Plan)
    ensures
        r.snapshot == manager.reaches_target(recovery, recovery),
        r.steps@ == clash_steps(*patch),
        r.threshold == 0,
        r.undo_early@ == Seq::<RollbackPart>::empty(),
        r.undo@ == seq![RollbackPart::Runtime] + service_part(r.snapshot)
            + seq![RollbackPart::ClashFile],
{
    let snapshot = manager.may_reach_target(recovery, recovery);
    let mut steps: Vec<Effect> = Vec::new();
    if mapping_get(patch, "secret").is_some() || mapping_get(patch, "external-controller").is_some()
    {
        steps.push(Effect::Generate);
        steps.push(Effect::RestartCore);
    } else if mapping_get(patch, "allow-lan").is_some() {
        steps.push(Effect::UpdateConfig);
    } else {
        if mapping_get(patch, "mode").is_some() {
            steps.push(Effect::UpdateTrayMenuAndIcon);
        }
        steps.push(Effect::PatchRuntime);
        steps.push(Effect::UpdateConfig);
    }
    steps.push(Effect::RefreshClash);
    steps.push(Effect::SaveClash);
    assert(steps@ =~= clash_steps(*patch));
    let mut undo: Vec<RollbackPart> = Vec::new();
    undo.push(RollbackPart::Runtime);
    if snapshot {
        undo.push(RollbackPart::Service);
    }
    undo.push(RollbackPart::ClashFile);
    assert(undo@ =~= seq![RollbackPart::Runtime] + service_part(snapshot)
        + seq![RollbackPart::ClashFile]);
    Plan { snapshot, steps, threshold: 0, undo_early: Vec::new(), undo }
}

/// Whether the settings name the private adapter.
pub open spec fn names_adapter(ics: IVerge) -> bool {
    crate::text::given_text(crate::text::text_view(ics.windows_ics_private_adapter_guid)) is Some
        || crate::text::given_text(
        crate::text::text_view(ics.windows_ics_private_adapter_name),
    ) is Some
}

/// Takes from a patch of the settings what has to do with ICS recovery, and
/// nothing else. To turn it on, the private adapter must be named.
pub fn patch_windows_tun_and_ics(ics: &IVerge) -> (r: Result<IVerge, CoreError>)
    ensures
        match r {
            Ok(patch) => {
                &&& ics.enable_windows_ics_recovery == Some(true) ==> names_adapter(*ics)
                &&& patch == (IVerge {
                    enable_windows_ics_recovery: ics.enable_windows_ics_recovery,
                    windows_ics_private_adapter_guid: ics.windows_ics_private_adapter_guid,
                    windows_ics_private_adapter_name: ics.windows_ics_private_adapter_name,
                    ..IVerge::blank()
                })
            },
            Err(error) => {
                &&& ics.enable_windows_ics_recovery == Some(true)
                &&& !names_adapter(*ics)
                &&& error == CoreError::of(Note::IcsAdapterMissing)
            },
        },
{
    let private_guid = non_blank(as_slice(&ics.windows_ics_private_adapter_guid));
    let private_name = non_blank(as_slice(&ics.windows_ics_private_adapter_name));
    if ics.enable_windows_ics_recovery.unwrap_or(false) && private_guid.is_none()
        && private_name.is_none() {
        return Err(note_error(Note::IcsAdapterMissing));
    }
    let mut patch = IVerge::default();
    patch.enable_windows_ics_recovery = ics.enable_windows_ics_recovery;
    patch.windows_ics_private_adapter_guid = match &ics.windows_ics_private_adapter_guid {
        Some(guid) => Some(guid.clone()),
        None => None,
    };
    patch.windows_ics_private_adapter_name = match &ics.windows_ics_private_adapter_name {
        Some(name) => Some(name.clone()),
        None => None,
    };
    Ok(patch)
}

/// What a change of TUN and ICS recovery takes; `relevant` is whether the
/// recovery target matters.
pub open spec fn tun_steps(relevant: bool) -> Seq<Effect> {
    seq![Effect::Generate, Effect::ApplyGenerated] + (if relevant {
        seq![Effect::ConfigureIcs]
    } else {
        Seq::empty()
    }) + seq![Effect::CommitDrafts, Effect::SaveClash, Effect::SaveVerge]
}

impl CoreManager {
    /// Plans a change of TUN and ICS recovery. The core and the recovery
    /// target are put back only after a failure that came once the
    /// configuration had been generated.
    pub fn patch_windows_tun_and_ics(&self, before: Option<bool>, requested: Option<bool>) -> (r:
        Plan)
        ensures
            r.snapshot == (before == Some(true) || requested == Some(true)),
            r.steps@ == tun_steps(r.snapshot),
            r.threshold == 1,
            r.undo_early@ == seq![RollbackPart::ClashFile, RollbackPart::VergeFile],
            r.undo@ == seq![RollbackPart::RuntimeFile, RollbackPart::Runtime] + service_part(
                r.snapshot,
            ) + seq![RollbackPart::ClashFile, RollbackPart::VergeFile],
    {
        let snapshot = windows_ics_service_state_relevant(before, requested);
        let mut steps: Vec<Effect> = Vec::new();
        steps.push(Effect::Generate);
        steps.push(Effect::ApplyGenerated);
        if snapshot {
            steps.push(Effect::ConfigureIcs);
        }
        steps.push(Effect::CommitDrafts);
        steps.push(Effect::SaveClash);
        steps.push(Effect::SaveVerge);
        assert(steps@ =~= tun_steps(snapshot));
        let mut undo_early: Vec<RollbackPart> = Vec::new();
        undo_early.push(RollbackPart::ClashFile);
        undo_early.push(RollbackPart::VergeFile);
        assert(undo_early@ =~= seq![RollbackPart::ClashFile, RollbackPart::VergeFile]);
        let mut undo: Vec<RollbackPart> = Vec::new();
        undo.push(RollbackPart::RuntimeFile);
        undo.push(RollbackPart::Runtime);
        if snapshot {
            undo.push(RollbackPart::Service);
        }
        undo.push(RollbackPart::ClashFile);
        undo.push(RollbackPart::VergeFile);
        assert(undo@ =~= seq![RollbackPart::RuntimeFile, RollbackPart::Runtime] + service_part(
            snapshot,
        ) + seq![RollbackPart::ClashFile, RollbackPart::VergeFile]);
        Plan { snapshot, steps, threshold: 1, undo_early, undo }
    }
}

/// Whether a patch of the settings gives something about ICS recovery.
pub open spec fn gives_ics(patch: IVerge) -> bool {
    patch.enable_windows_ics_recovery is Some || patch.windows_ics_private_adapter_guid is Some
        || patch.windows_ics_private_adapter_name is Some
}

fn patches_ics(patch: &IVerge) -> (r: bool)
    ensures
        r == gives_ics(*patch),
{
    patch.enable_windows_ics_recovery.is_some() || patch.windows_ics_private_adapter_guid.is_some()
        || patch.windows_ics_private_adapter_name.is_some()
}

/// Whether flags touch the configuration that the core runs on.
pub open spec fn touch_runtime(flags: UpdateFlags) -> bool {
    flags.restart_core || flags.clash_config
}

/// What a patch of the settings takes. `synced` is whether the recovery target
/// follows it, and `saved` whether the settings are saved.
pub open spec fn verge_steps(patch: IVerge, platform: Platform, synced: bool, saved: bool) -> Seq<
    Effect,
> {
    crate::effects::effects_in_order(
        crate::effects::flag_order(),
        crate::flags::asked_flags(patch, platform),
        patch,
        platform,
    ) + crate::effects::when(synced, seq![Effect::ConfigureIcs]) + crate::effects::when(
        saved,
        seq![Effect::SaveVerge],
    )
}

/// The flags of `flags`, as parts to be undone.
pub open spec fn side_effect_parts(flags: Seq<UpdateFlag>) -> Seq<RollbackPart> {
    flags.map_values(|flag: UpdateFlag| RollbackPart::SideEffect(flag))
}

/// What undoing a patch of the settings takes.
pub open spec fn verge_undo(flags: UpdateFlags, snapshot: bool, saved: bool) -> Seq<RollbackPart> {
    (if touch_runtime(flags) {
        seq![RollbackPart::Runtime]
    } else {
        Seq::empty()
    }) + service_part(snapshot) + (if saved {
        seq![RollbackPart::VergeFile]
    } else {
        Seq::empty()
    }) + side_effect_parts(crate::effects::undone_flags(crate::effects::flag_order(), flags))
}

/// Plans a change of the settings; `recovery` is whether the ICS recovery
/// target is kept so far.
pub fn patch_verge(
    manager: &CoreManager,
    patch: &IVerge,
    not_save_file: bool,
    recovery: Option<bool>,
) -> (r: Plan)
    ensures
        ({
            let flags = crate::flags::asked_flags(*patch, manager.platform);
            let reaches = manager.reaches_target(recovery, patch.enable_windows_ics_recovery);
            &&& r.snapshot == (reaches && (touch_runtime(flags) || gives_ics(*patch)))
            &&& r.steps@ == verge_steps(
                *patch,
                manager.platform,
                reaches && gives_ics(*patch),
                !not_save_file,
            )
            &&& r.threshold == 0
            &&& r.undo_early@ == Seq::<RollbackPart>::empty()
            &&& r.undo@ == verge_undo(flags, r.snapshot, !not_save_file)
        }),
{
    let flags = determine_update_flags(patch, manager.platform);
    let runtime_may_change = flags.contains_flag(UpdateFlag::RestartCore) || flags.contains_flag(
        UpdateFlag::ClashConfig,
    );
    let reaches = manager.may_reach_target(recovery, patch.enable_windows_ics_recovery);
    let explicit_sync = reaches && patches_ics(patch);
    let snapshot = (reaches && runtime_may_change) || explicit_sync;

    let mut steps = process_terminated_flags(flags, patch, manager.platform);
    let ghost effects = steps@;
    if explicit_sync {
        steps.push(Effect::ConfigureIcs);
    }
    if !not_save_file {
        steps.push(Effect::SaveVerge);
    }
    assert(steps@ =~= verge_steps(*patch, manager.platform, explicit_sync, !not_save_file));

    let mut undo: Vec<RollbackPart> = Vec::new();
    if runtime_may_change {
        undo.push(RollbackPart::Runtime);
    }
    if snapshot {
        undo.push(RollbackPart::Service);
    }
    if !not_save_file {
        undo.push(RollbackPart::VergeFile);
    }
    let ghost head = undo@;
    let undone = restore_non_runtime_side_effects(flags);
    let ghost parts = side_effect_parts(undone@);
    let mut i: usize = 0;
    assert(undo@ =~= head + parts.take(0));
    while i < undone.len()
        invariant
            i <= undone.len(),
            parts == side_effect_parts(undone@),
            undo@ == head + parts.take(i as int),
        decreases undone.len() - i,
    {
        undo.push(RollbackPart::SideEffect(undone[i]));
        i = i + 1;
        assert(undo@ =~= head + parts.take(i as int));
    }
    assert(parts.take(i as int) =~= parts);
    assert(undo@ =~= verge_undo(flags, snapshot, !not_save_file));
    Plan { snapshot, steps, threshold: 0, undo_early: Vec::new(), undo }
}

/// Whether a change of the settings that has been made is to be followed by
/// bringing the recovery target up to date in the background.
pub fn verge_change_schedules_ics(platform: Platform, patch: &IVerge) -> (r: bool)
    ensures
        r == (platform is Windows && (patch.enable_tun_mode is Some || gives_ics(*patch))),
{
    match platform {
        Platform::Windows => patch.enable_tun_mode.is_some() || patches_ics(patch),
        _ => false,
    }
}

/// Whether `core` is one of `cores`.
pub open spec fn is_among(core: Seq<char>, cores: Seq<String>) -> bool {
    crate::text::texts(cores).contains(core)
}

impl CoreManager {
    /// Plans a change to another core, which must be one of those there are.
    pub fn change_core(&self, clash_core: &str, valid_cores: &Vec<String>) -> (r: Result<
        Plan,
        CoreError,
    >)
        ensures
            match r {
                Ok(plan) => {
                    &&& is_among(clash_core@, valid_cores@)
                    &&& !plan.snapshot
                    &&& plan.steps@ == seq![Effect::SaveVerge, Effect::UpdateConfig]
                    &&& plan.threshold == 0
                    &&& plan.undo_early@ == Seq::<RollbackPart>::empty()
                    &&& plan.undo@ == seq![RollbackPart::Runtime, RollbackPart::VergeFile]
                },
                Err(error) => {
                    &&& !is_among(clash_core@, valid_cores@)
                    &&& error matches CoreError::Plain(Message::InvalidCore { core })
                    &&& core@ == clash_core@
                },
            },
    {
        let ghost names = crate::text::texts(valid_cores@);
        let mut found = false;
        let mut i: usize = 0;
        while i < valid_cores.len()
            invariant
                i <= valid_cores.len(),
                names == crate::text::texts(valid_cores@),
                found ==> names.contains(clash_core@),
                !found ==> forall|j: int| 0 <= j < i ==> names[j] != clash_core@,
            decreases valid_cores.len() - i,
        {
            assert(names[i as int] == valid_cores@[i as int]@);
            if same_text(valid_cores[i].as_str(), clash_core) {
                found = true;
            }
            i = i + 1;
        }
        if !found {
            return Err(CoreError::Plain(Message::InvalidCore { core: clash_core.to_owned() }));
        }
        let mut steps: Vec<Effect> = Vec::new();
        steps.push(Effect::SaveVerge);
        steps.push(Effect::UpdateConfig);
        assert(steps@ =~= seq![Effect::SaveVerge, Effect::UpdateConfig]);
        let mut undo: Vec<RollbackPart> = Vec::new();
        undo.push(RollbackPart::Runtime);
        undo.push(RollbackPart::VergeFile);
        assert(undo@ =~= seq![RollbackPart::Runtime, RollbackPart::VergeFile]);
        Ok(Plan { snapshot: false, steps, threshold: 0, undo_early: Vec::new(), undo })
    }
}

/// How a failed change to another core is told.
pub open spec fn change_core_wording(error: CoreError, failures: RollbackFailures) -> Seq<char> {
    if failures is Nothing {
        error.summary_wording()
    } else {
        error.detail_wording() + "; rollback errors: "@ + failures.wording()
    }
}

/// Tells of a failed change to another core.
pub fn change_core_message(error: &CoreError, failures: &RollbackFailures) -> (r: String)
    ensures
        r@ == change_core_wording(*error, *failures),
{
    match failures {
        RollbackFailures::Nothing => error.summary(),
        _ => {
            let mut r = error.detail();
            r.append("; rollback errors: ");
            r.append(failures.text().as_str());
            r
        },
    }
}

/// When a change of the application's settings is undone, the recovery target
/// is put back exactly where it was read beforehand.
pub proof fn law_target_is_put_back_only_if_read(flags: UpdateFlags, snapshot: bool, saved: bool)
    ensures
        verge_undo(flags, snapshot, saved).contains(RollbackPart::Service) <==> snapshot,
{
    let undo = verge_undo(flags, snapshot, saved);
    let sides = side_effect_parts(
        crate::effects::undone_flags(crate::effects::flag_order(), flags),
    );
    let runtime = if touch_runtime(flags) {
        seq![RollbackPart::Runtime]
    } else {
        Seq::empty()
    };
    if snapshot {
        assert(undo[runtime.len() as int] == RollbackPart::Service);
    }
    if undo.contains(RollbackPart::Service) {
        let i = choose|i: int| 0 <= i < undo.len() && undo[i] == RollbackPart::Service;
        let start = undo.len() - sides.len();
        if i >= start {
            assert(undo[i] == sides[i - start]);
            assert(sides[i - start] is SideEffect);
        }
    }
}

/// A change of the core's settings restarts the core where it changes how the
/// core is talked to, and otherwise updates its configuration; the settings
/// that the core takes over while it runs are made in its configuration too.
/// What the core is told comes first, and saving the settings last.
pub proof fn law_core_setting_is_brought_to_the_core(patch: Mapping)
    ensures
        ({
            let entries = crate::yaml::yaml_entries(patch);
            let talk = entries.contains_key("secret"@) || entries.contains_key(
                "external-controller"@,
            );
            let lan = entries.contains_key("allow-lan"@);
            let mode = entries.contains_key("mode"@);
            let end = seq![Effect::RefreshClash, Effect::SaveClash];
            let steps = clash_steps(patch);
            &&& talk ==> steps == seq![Effect::Generate, Effect::RestartCore] + end
            &&& !talk && lan ==> steps == seq![Effect::UpdateConfig] + end
            &&& !talk && !lan && mode ==> steps == seq![
                Effect::UpdateTrayMenuAndIcon,
                Effect::PatchRuntime,
                Effect::UpdateConfig,
            ] + end
            &&& !talk && !lan && !mode ==> steps == seq![
                Effect::PatchRuntime,
                Effect::UpdateConfig,
            ] + end
            &&& steps.last() == Effect::SaveClash
            &&& steps.contains(Effect::RestartCore) ==> talk
        }),
{
    let steps = clash_steps(patch);
    if steps.contains(Effect::RestartCore) {
        let i = choose|i: int| 0 <= i < steps.len() && steps[i] == Effect::RestartCore;
        assert(steps[i] == Effect::RestartCore);
    }
}

/// A change can reach the recovery target on Windows only, and there where the
/// service runs the core, or the target is kept before or after.
pub proof fn law_target_is_reached_on_windows_only(
    manager: CoreManager,
    before: Option<bool>,
    after: Option<bool>,
)
    ensures
        !(manager.platform is Windows) ==> !manager.reaches_target(before, after),
        manager.platform is Windows && manager.running_mode is Service
            ==> manager.reaches_target(before, after),
        manager.platform is Windows && (before == Some(true) || after == Some(true))
            ==> manager.reaches_target(before, after),
        !(manager.running_mode is Service) && before != Some(true) && after != Some(true)
            ==> !manager.reaches_target(before, after),
{
}

/// A change of TUN and recovery is generated, applied and, where the target
/// matters, followed by the target, before the settings are taken over and
/// saved.
pub proof fn law_tun_change_is_saved_last(relevant: bool)
    ensures
        relevant ==> tun_steps(relevant) == seq![
            Effect::Generate,
            Effect::ApplyGenerated,
            Effect::ConfigureIcs,
            Effect::CommitDrafts,
            Effect::SaveClash,
            Effect::SaveVerge,
        ],
        !relevant ==> tun_steps(relevant) == seq![
            Effect::Generate,
            Effect::ApplyGenerated,
            Effect::CommitDrafts,
            Effect::SaveClash,
            Effect::SaveVerge,
        ],
        service_part(relevant) == if relevant {
            seq![RollbackPart::Service]
        } else {
            Seq::empty()
        },
{
}

/// A change of the application's settings does what its flags ask for, then
/// brings the recovery target along where that follows, and saves the settings
/// at the very end, where they are to be saved.
pub proof fn law_settings_are_saved_last(
    patch: IVerge,
    platform: Platform,
    synced: bool,
    saved: bool,
)
    ensures
        ({
            let done = crate::effects::effects_in_order(
                crate::effects::flag_order(),
                crate::flags::asked_flags(patch, platform),
                patch,
                platform,
            );
            let steps = verge_steps(patch, platform, synced, saved);
            let n = done.len() as int;
            &&& done.is_prefix_of(steps)
            &&& steps.len() == n + (if synced { 1int } else { 0 }) + (if saved { 1int } else { 0 })
            &&& synced ==> steps[n] == Effect::ConfigureIcs
            &&& saved ==> steps.last() == Effect::SaveVerge
        }),
{
}

/// The system proxy is set whenever a change of the settings gives something
/// about it, and the core is restarted whenever one gives another port.
pub proof fn law_given_settings_take_effect(
    patch: IVerge,
    platform: Platform,
    synced: bool,
    saved: bool,
)
    ensures
        patch.enable_system_proxy is Some || patch.system_proxy_bypass is Some
            || patch.proxy_auto_config is Some || patch.pac_file_content is Some ==> verge_steps(
            patch,
            platform,
            synced,
            saved,
        ).contains(Effect::UpdateSysproxy),
        patch.verge_mixed_port is Some || patch.verge_socks_port is Some || patch.verge_port is Some
            ==> verge_steps(patch, platform, synced, saved)[1] == Effect::RestartCore,
{
    let flags = crate::flags::asked_flags(patch, platform);
    let done = crate::effects::effects_in_order(
        crate::effects::flag_order(),
        flags,
        patch,
        platform,
    );
    let steps = verge_steps(patch, platform, synced, saved);
    law_settings_are_saved_last(patch, platform, synced, saved);
    if flags.sys_proxy {
        crate::effects::law_system_proxy_is_set(flags, patch, platform);
        let i = choose|i: int| 0 <= i < done.len() && done[i] == Effect::UpdateSysproxy;
        assert(steps[i] == done[i]);
    }
    if flags.restart_core {
        crate::effects::law_core_is_seen_to_first(flags, patch, platform);
        assert(steps[1] == done[1]);
    }
}

/// Undoing a change of the application's settings has the core run on its
/// configuration of before exactly where the change touched that, saves the
/// settings of before exactly where they had been saved, and undoes every side
/// effect.
pub proof fn law_undoing_matches_what_was_done(
    flags: UpdateFlags,
    snapshot: bool,
    saved: bool,
    flag: UpdateFlag,
)
    ensures
        ({
            let undo = verge_undo(flags, snapshot, saved);
            let touched = flags.restart_core || flags.clash_config;
            &&& undo.contains(RollbackPart::Runtime) <==> touched
            &&& touched ==> undo[0] == RollbackPart::Runtime
            &&& undo.contains(RollbackPart::VergeFile) <==> saved
            &&& undo.contains(RollbackPart::SideEffect(flag)) <==> flags.has(flag) && !(
            flag is RestartCore) && !(flag is ClashConfig)
            &&& !undo.contains(RollbackPart::RuntimeFile)
            &&& !undo.contains(RollbackPart::ClashFile)
        }),
{
    let undo = verge_undo(flags, snapshot, saved);
    let undone = crate::effects::undone_flags(crate::effects::flag_order(), flags);
    let sides = side_effect_parts(undone);
    let head = undo.len() - sides.len();
    crate::effects::law_every_side_effect_is_undone(flags, flag);
    assert forall|i: int| head <= i < undo.len() implies undo[i] == RollbackPart::SideEffect(
        undone[i - head],
    ) by {
        assert(undo[i] == sides[i - head]);
    }
    if touch_runtime(flags) {
        assert(undo[0] == RollbackPart::Runtime);
    }
    if saved {
        assert(undo[head - 1] == RollbackPart::VergeFile);
    }
    if undone.contains(flag) {
        let i = choose|i: int| 0 <= i < undone.len() && undone[i] == flag;
        assert(undo[head + i] == RollbackPart::SideEffect(flag));
    }
    if undo.contains(RollbackPart::SideEffect(flag)) {
        let i = choose|i: int|
            0 <= i < undo.len() && undo[i] == RollbackPart::SideEffect(flag);
        assert(undone[i - head] == flag);
    }
}

/// A patch of the settings is about ICS recovery where it gives any of what
/// recovery goes by.
pub proof fn law_recovery_settings_count(patch: IVerge)
    ensures
        patch.enable_windows_ics_recovery is Some ==> gives_ics(patch),
        patch.windows_ics_private_adapter_guid is Some ==> gives_ics(patch),
        patch.windows_ics_private_adapter_name is Some ==> gives_ics(patch),
        patch.enable_windows_ics_recovery is None && patch.windows_ics_private_adapter_guid is None
            && patch.windows_ics_private_adapter_name is None ==> !gives_ics(patch),
{
}

/// The private adapter is named by a guid or a name that is not blank.
pub proof fn law_adapter_is_named_by_either(ics: IVerge)
    ensures
        names_adapter(ics) <==> {
            ||| ics.windows_ics_private_adapter_guid is Some && crate::text::trimmed(
                ics.windows_ics_private_adapter_guid->0@,
            ).len() > 0
            ||| ics.windows_ics_private_adapter_name is Some && crate::text::trimmed(
                ics.windows_ics_private_adapter_name->0@,
            ).len() > 0
        },
{
}

/// A failed change to another core is told by its error alone where it was
/// undone in full, and together with what could not be undone otherwise.
pub proof fn law_failed_core_change_is_told(error: CoreError, failures: RollbackFailures)
    ensures
        change_core_wording(error, RollbackFailures::Nothing) == error.summary_wording(),
        !(failures is Nothing) ==> change_core_wording(error, failures) == error.detail_wording()
            + "; rollback errors: "@ + failures.wording(),
{
}

/// A core is one of those there are exactly where one of them has its name.
pub proof fn law_core_is_known_by_name(core: Seq<char>, cores: Seq<String>)
    ensures
        is_among(core, cores) <==> exists|i: int| 0 <= i < cores.len() && (#[trigger] cores[i])@
            == core,
{
    let names = crate::text::texts(cores);
    if is_among(core, cores) {
        let i = choose|i: int| 0 <= i < names.len() && names[i] == core;
        assert(cores[i]@ == core);
    }
    if exists|i: int| 0 <= i < cores.len() && (#[trigger] cores[i])@ == core {
        let i = choose|i: int| 0 <= i < cores.len() && (#[trigger] cores[i])@ == core;
        assert(names[i] == core);
    }
}

} // verus!
