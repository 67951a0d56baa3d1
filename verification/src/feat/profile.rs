//! Updates of the subscribed profiles.

use crate::error::{note_error, CoreError, Failure, Note};
use crate::manager::config::{UpdateAction, UpdateFlow};
use crate::manager::CoreManager;
use crate::text::same_optional_text;
use crate::validation::ValidationOutcome;
use vstd::prelude::*;
use vstd::string::*;

verus! {

/// How a profile is downloaded.
#[derive(Debug, PartialEq, Eq)]
pub struct PrfOption {
    pub user_agent: Option<String>,
    /// Whether to go through the system's proxy.
    pub with_proxy: Option<bool>,
    /// Whether to go through the core.
    pub self_proxy: Option<bool>,
    pub update_interval: Option<u64>,
    pub timeout_seconds: Option<u64>,
    pub danger_accept_invalid_certs: Option<bool>,
    pub allow_auto_update: Option<bool>,
    pub merge: Option<String>,
    pub script: Option<String>,
    pub rules: Option<String>,
    pub proxies: Option<String>,
    pub groups: Option<String>,
}

/// The view of the way a profile is downloaded.
pub struct PrfOptionView {
    pub user_agent: Option<Seq<char>>,
    pub with_proxy: Option<bool>,
    pub self_proxy: Option<bool>,
    pub update_interval: Option<u64>,
    pub timeout_seconds: Option<u64>,
    pub danger_accept_invalid_certs: Option<bool>,
    pub allow_auto_update: Option<bool>,
    pub merge: Option<Seq<char>>,
    pub script: Option<Seq<char>>,
    pub rules: Option<Seq<char>>,
    pub proxies: Option<Seq<char>>,
    pub groups: Option<Seq<char>>,
}

impl View for PrfOption {
    type V = PrfOptionView;

    open spec fn view(&self) -> PrfOptionView {
        PrfOptionView {
            user_agent: crate::text::text_view(self.user_agent),
            with_proxy: self.with_proxy,
            self_proxy: self.self_proxy,
            update_interval: self.update_interval,
            timeout_seconds: self.timeout_seconds,
            danger_accept_invalid_certs: self.danger_accept_invalid_certs,
            allow_auto_update: self.allow_auto_update,
            merge: crate::text::text_view(self.merge),
            script: crate::text::text_view(self.script),
            rules: crate::text::text_view(self.rules),
            proxies: crate::text::text_view(self.proxies),
            groups: crate::text::text_view(self.groups),
        }
    }
}

fn copy_text(value: &Option<String>) -> (r: Option<String>)
    ensures
        r == *value,
{
    match value {
        Some(text) => Some(text.clone()),
        None => None,
    }
}

impl Clone for PrfOption {
    fn clone(&self) -> (r: Self)
        ensures
            r == *self,
    {
        PrfOption {
            user_agent: copy_text(&self.user_agent),
            with_proxy: self.with_proxy,
            self_proxy: self.self_proxy,
            update_interval: self.update_interval,
            timeout_seconds: self.timeout_seconds,
            danger_accept_invalid_certs: self.danger_accept_invalid_certs,
            allow_auto_update: self.allow_auto_update,
            merge: copy_text(&self.merge),
            script: copy_text(&self.script),
            rules: copy_text(&self.rules),
            proxies: copy_text(&self.proxies),
            groups: copy_text(&self.groups),
        }
    }
}

impl PrfOption {
    /// The way in which nothing is given.
    pub open spec fn blank() -> PrfOption {
        PrfOption {
            user_agent: None,
            with_proxy: None,
            self_proxy: None,
            update_interval: None,
            timeout_seconds: None,
            danger_accept_invalid_certs: None,
            allow_auto_update: None,
            merge: None,
            script: None,
            rules: None,
            proxies: None,
            groups: None,
        }
    }
}

impl Default for PrfOption {
    fn default() -> (r: Self)
        ensures
            r == PrfOption::blank(),
    {
        PrfOption {
            user_agent: None,
            with_proxy: None,
            self_proxy: None,
            update_interval: None,
            timeout_seconds: None,
            danger_accept_invalid_certs: None,
            allow_auto_update: None,
            merge: None,
            script: None,
            rules: None,
            proxies: None,
            groups: None,
        }
    }
}

/// A profile.
#[derive(Debug)]
pub struct PrfItem {
    pub uid: Option<String>,
    pub itype: Option<String>,
    pub name: Option<String>,
    pub url: Option<String>,
    pub option: Option<PrfOption>,
}

impl Default for PrfItem {
    fn default() -> (r: Self)
        ensures
            r == (PrfItem { uid: None, itype: None, name: None, url: None, option: None }),
    {
        PrfItem { uid: None, itype: None, name: None, url: None, option: None }
    }
}

/// The view of an optional way of downloading.
pub open spec fn option_view(option: Option<PrfOption>) -> Option<PrfOptionView> {
    match option {
        Some(o) => Some(o@),
        None => None,
    }
}

fn copy_option(option: &Option<PrfOption>) -> (r: Option<PrfOption>)
    ensures
        r == *option,
{
    match option {
        Some(o) => Some(o.clone()),
        None => None,
    }
}

fn same_option(a: &PrfOption, b: &PrfOption) -> (r: bool)
    ensures
        r == (a@ == b@),
{
    same_optional_text(&a.user_agent, &b.user_agent) && a.with_proxy == b.with_proxy
        && a.self_proxy == b.self_proxy && a.update_interval == b.update_interval
        && a.timeout_seconds == b.timeout_seconds && a.danger_accept_invalid_certs
        == b.danger_accept_invalid_certs && a.allow_auto_update == b.allow_auto_update
        && same_optional_text(&a.merge, &b.merge) && same_optional_text(&a.script, &b.script)
        && same_optional_text(&a.rules, &b.rules) && same_optional_text(&a.proxies, &b.proxies)
        && same_optional_text(&a.groups, &b.groups)
}

/// Whether a profile is one that is downloaded.
pub open spec fn is_remote(item: PrfItem) -> bool {
    crate::text::text_view(item.itype) == Some("remote"@)
}

fn remote(item: &PrfItem) -> (r: bool)
    ensures
        r == is_remote(*item),
{
    match &item.itype {
        Some(itype) => *itype == "remote".to_owned(),
        None => false,
    }
}

/// Whether a profile may be updated without being asked to.
pub open spec fn updates_itself(item: PrfItem) -> bool {
    match item.option {
        Some(option) => option.allow_auto_update != Some(false),
        None => true,
    }
}

/// What an update of a profile downloads: nothing, where it is not one that is
/// downloaded, or may not be updated without being asked to.
pub open spec fn update_source(item: PrfItem, ignore_auto_update: bool) -> Result<
    Option<(String, Option<PrfOption>)>,
    CoreError,
> {
    if !is_remote(item) {
        Ok(None)
    } else {
        match item.url {
            None => Err(CoreError::of(Note::ProfileUrlMissing)),
            Some(url) => if !ignore_auto_update && !updates_itself(item) {
                Ok(None)
            } else {
                Ok(Some((url, item.option)))
            },
        }
    }
}

/// Decides what an update of a profile downloads.
pub fn should_update_profile(item: &PrfItem, ignore_auto_update: bool) -> (r: Result<
    Option<(String, Option<PrfOption>)>,
    CoreError,
>)
    ensures
        r == update_source(*item, ignore_auto_update),
        !(item.itype is Some && item.itype->0@ == "remote"@) ==> r == Ok::<
            Option<(String, Option<PrfOption>)>,
            CoreError,
        >(None),
        item.itype is Some && item.itype->0@ == "remote"@ ==> match item.url {
            None => r == Err::<Option<(String, Option<PrfOption>)>, CoreError>(
                CoreError::of(Note::ProfileUrlMissing),
            ),
            Some(url) => if !ignore_auto_update && item.option is Some
                && item.option->0.allow_auto_update == Some(false) {
                r == Ok::<Option<(String, Option<PrfOption>)>, CoreError>(None)
            } else {
                r == Ok::<Option<(String, Option<PrfOption>)>, CoreError>(
                    Some((url, item.option)),
                )
            },
        },
{
    if !remote(item) {
        return Ok(None);
    }
    match &item.url {
        None => Err(note_error(Note::ProfileUrlMissing)),
        Some(url) => {
            let allowed = match &item.option {
                Some(option) => option.allow_auto_update.unwrap_or(true),
                None => true,
            };
            if !ignore_auto_update && !allowed {
                Ok(None)
            } else {
                Ok(Some((url.clone(), copy_option(&item.option))))
            }
        },
    }
}

/// Whether a profile still is what was downloaded: from this address, in this
/// way.
pub open spec fn still_source(
    item: Option<PrfItem>,
    url: Seq<char>,
    option: Option<PrfOptionView>,
) -> bool {
    match item {
        Some(item) => is_remote(item) && crate::text::text_view(item.url) == Some(url)
            && option_view(item.option) == option,
        None => false,
    }
}

/// Whether a profile still is what was downloaded.
pub fn profile_download_snapshot_matches(
    item: Option<&PrfItem>,
    url: &str,
    option: Option<&PrfOption>,
) -> (r: bool)
    ensures
        r == still_source(
            match item {
                Some(item) => Some(*item),
                None => None,
            },
            url@,
            match option {
                Some(option) => Some(option@),
                None => None,
            },
        ),
{
    match item {
        Some(item) => {
            let same_url = match &item.url {
                Some(current) => *current == url.to_owned(),
                None => false,
            };
            let same_way = match (&item.option, option) {
                (Some(current), Some(option)) => same_option(current, option),
                (None, None) => true,
                _ => false,
            };
            remote(item) && same_url && same_way
        },
        None => false,
    }
}

/// The name that a profile is told of by.
pub fn profile_name(name: Option<String>) -> (r: String)
    ensures
        r@ == (match name {
            Some(name) => name@,
            None => "UnKnown Profile"@,
        }),
{
    match name {
        Some(name) => name,
        None => "UnKnown Profile".to_owned(),
    }
}

/// A way of downloading with the proxies set.
pub open spec fn with_proxies(
    option: Option<PrfOption>,
    self_proxy: bool,
    with_proxy: bool,
) -> PrfOption {
    let base = match option {
        Some(option) => option,
        None => PrfOption::blank(),
    };
    PrfOption { self_proxy: Some(self_proxy), with_proxy: Some(with_proxy), ..base }
}

fn set_proxies(option: Option<PrfOption>, self_proxy: bool, with_proxy: bool) -> (r: PrfOption)
    ensures
        r == with_proxies(option, self_proxy, with_proxy),
{
    let mut r = match option {
        Some(option) => option,
        None => PrfOption::default(),
    };
    r.self_proxy = Some(self_proxy);
    r.with_proxy = Some(with_proxy);
    r
}

/// Where a download stands. `option` is the way it is tried, `name` the
/// profile's name, and `manual` whether the user asked for it.
#[derive(Debug)]
pub enum DownloadFlow {
    /// As the profile says.
    Plainly { option: Option<PrfOption>, name: String, manual: bool },
    /// Through the core.
    ThroughCore { option: PrfOption, name: String, manual: bool },
    /// Through the system's proxy.
    ThroughSystem { name: String, manual: bool },
    Finished,
}

/// What to do next.
#[derive(Debug)]
pub enum DownloadAction {
    Download(Option<PrfOption>),
    /// The profile has been downloaded; `proxy_notice` is its name where that
    /// took a proxy.
    Done { item: PrfItem, proxy_notice: Option<String> },
    /// It has not been. Where the user asked for it, they are told with the
    /// profile's name and the last failure.
    GiveUp { notice: Option<(String, Failure)> },
    Ignore,
}

/// Where a download goes from `flow` when a try ends in `downloaded`.
pub open spec fn download_next(flow: DownloadFlow, downloaded: Result<PrfItem, Failure>) -> (
    DownloadFlow,
    DownloadAction,
) {
    match flow {
        DownloadFlow::Plainly { option, name, manual } => match downloaded {
            Ok(item) => (
                DownloadFlow::Finished,
                DownloadAction::Done { item, proxy_notice: None },
            ),
            Err(_) => {
                let option = with_proxies(option, true, false);
                (
                    DownloadFlow::ThroughCore { option, name, manual },
                    DownloadAction::Download(Some(option)),
                )
            },
        },
        DownloadFlow::ThroughCore { option, name, manual } => match downloaded {
            Ok(item) => (
                DownloadFlow::Finished,
                DownloadAction::Done { item, proxy_notice: Some(name) },
            ),
            Err(_) => (
                DownloadFlow::ThroughSystem { name, manual },
                DownloadAction::Download(Some(with_proxies(Some(option), false, true))),
            ),
        },
        DownloadFlow::ThroughSystem { name, manual } => match downloaded {
            Ok(item) => (
                DownloadFlow::Finished,
                DownloadAction::Done { item, proxy_notice: Some(name) },
            ),
            Err(failure) => (
                DownloadFlow::Finished,
                DownloadAction::GiveUp {
                    notice: if manual {
                        Some((name, failure))
                    } else {
                        None
                    },
                },
            ),
        },
        DownloadFlow::Finished => (flow, DownloadAction::Ignore),
    }
}

/// Begins to download a profile; `merged` is the way that the profile and the
/// request together ask for.
pub fn perform_profile_update(merged: Option<PrfOption>, name: String, manual: bool) -> (r: (
    DownloadFlow,
    DownloadAction,
))
    ensures
        r == (
            (DownloadFlow::Plainly { option: merged, name, manual }),
            DownloadAction::Download(merged),
        ),
{
    let option = copy_option(&merged);
    (DownloadFlow::Plainly { option, name, manual }, DownloadAction::Download(merged))
}

/// Takes a download one try further.
pub fn download_step(flow: DownloadFlow, downloaded: Result<PrfItem, Failure>) -> (r: (
    DownloadFlow,
    DownloadAction,
))
    ensures
        r == download_next(flow, downloaded),
{
    match flow {
        DownloadFlow::Plainly { option, name, manual } => match downloaded {
            Ok(item) => (
                DownloadFlow::Finished,
                DownloadAction::Done { item, proxy_notice: None },
            ),
            Err(_) => {
                let option = set_proxies(option, true, false);
                let asked = Some(option.clone());
                (
                    DownloadFlow::ThroughCore { option, name, manual },
                    DownloadAction::Download(asked),
                )
            },
        },
        DownloadFlow::ThroughCore { option, name, manual } => match downloaded {
            Ok(item) => (
                DownloadFlow::Finished,
                DownloadAction::Done { item, proxy_notice: Some(name) },
            ),
            Err(_) => (
                DownloadFlow::ThroughSystem { name, manual },
                DownloadAction::Download(Some(set_proxies(Some(option), false, true))),
            ),
        },
        DownloadFlow::ThroughSystem { name, manual } => match downloaded {
            Ok(item) => (
                DownloadFlow::Finished,
                DownloadAction::Done { item, proxy_notice: Some(name) },
            ),
            Err(failure) => {
                let notice = if manual {
                    Some((name, failure))
                } else {
                    None
                };
                (DownloadFlow::Finished, DownloadAction::GiveUp { notice })
            },
        },
        DownloadFlow::Finished => (DownloadFlow::Finished, DownloadAction::Ignore),
    }
}

/// How the user is told that a profile could not be downloaded.
pub fn download_failure_message(name: &str, failure: &Failure) -> (r: String)
    ensures
        r@ == name@ + " - "@ + failure.summary@,
{
    let mut r = name.to_owned();
    r.append(" - ");
    r.append(failure.summary.as_str());
    r
}

/// What was downloaded, if the profile still is what `snapshot` says it was
/// when the download began; `current` is the profile as it is now.
pub open spec fn revalidated(
    current: Option<PrfItem>,
    snapshot: Option<(String, Option<PrfOption>)>,
    item: Option<PrfItem>,
    notice: Option<String>,
) -> (Option<PrfItem>, Option<String>) {
    if item is None {
        (item, notice)
    } else {
        match snapshot {
            Some((url, option)) => if still_source(current, url@, option_view(option)) {
                (item, notice)
            } else {
                (None, None)
            },
            None => (None, None),
        }
    }
}

/// Gives up what was downloaded, if the profile has changed meanwhile.
pub fn revalidate_downloaded_profile(
    current: Option<PrfItem>,
    snapshot: Option<(String, Option<PrfOption>)>,
    downloaded_item: Option<PrfItem>,
    proxy_notice: Option<String>,
) -> (r: (Option<PrfItem>, Option<String>))
    ensures
        r == revalidated(current, snapshot, downloaded_item, proxy_notice),
{
    if downloaded_item.is_none() {
        return (downloaded_item, proxy_notice);
    }
    let matches = match &snapshot {
        Some((url, option)) => profile_download_snapshot_matches(
            current.as_ref(),
            url.as_str(),
            option.as_ref(),
        ),
        None => false,
    };
    if matches {
        (downloaded_item, proxy_notice)
    } else {
        (None, None)
    }
}

/// What follows an update of the core's configuration after a profile's.
#[derive(Debug)]
pub enum RefreshOutcome {
    /// The user interface is brought up to date.
    Refresh,
    /// Nothing.
    Quiet,
    /// The user is told of a failure.
    Notify(String),
}

/// Whether an outcome is no news where the user did not ask for the update.
pub open spec fn is_skip(outcome: ValidationOutcome) -> bool {
    outcome is Skipped || outcome is Busy
}

/// Decides what follows an update of the core's configuration; `wording` is
/// how an outcome that is no success is told.
pub fn refresh_profile_runtime(
    updated: Result<ValidationOutcome, CoreError>,
    wording: String,
    manual: bool,
) -> (r: RefreshOutcome)
    ensures
        match updated {
            Ok(outcome) => if outcome is Valid {
                r is Refresh
            } else if is_skip(outcome) && !manual {
                r is Quiet
            } else {
                r == RefreshOutcome::Notify(wording)
            },
            Err(error) => r matches RefreshOutcome::Notify(text) && text@
                == error.summary_wording(),
        },
{
    match updated {
        Ok(ValidationOutcome::Valid) => RefreshOutcome::Refresh,
        Ok(ValidationOutcome::Skipped { reason: _ }) | Ok(ValidationOutcome::Busy) => if manual {
            RefreshOutcome::Notify(wording)
        } else {
            RefreshOutcome::Quiet
        },
        Ok(ValidationOutcome::Invalid { message: _ }) => RefreshOutcome::Notify(wording),
        Err(error) => RefreshOutcome::Notify(error.summary()),
    }
}

/// Where an update of a profile stands. `refresh` is whether the core's
/// configuration is to follow; `snapshot` is what the download began from.
#[derive(Debug)]
pub enum ProfileFlow {
    /// What is downloaded is being decided.
    Deciding { refresh: bool },
    /// The profile is being downloaded.
    Downloading { refresh: bool, snapshot: (String, Option<PrfOption>) },
    /// The configuration lock is being taken.
    TakingLock {
        refresh: bool,
        snapshot: Option<(String, Option<PrfOption>)>,
        item: Option<PrfItem>,
        notice: Option<String>,
    },
    /// Whether a newer download has begun is being asked.
    TakingCommit {
        refresh: bool,
        snapshot: (String, Option<PrfOption>),
        item: Option<PrfItem>,
        notice: Option<String>,
    },
    /// The profile is being read again.
    Rereading {
        refresh: bool,
        snapshot: Option<(String, Option<PrfOption>)>,
        item: Option<PrfItem>,
        notice: Option<String>,
    },
    /// What was downloaded is being saved.
    Saving { refresh: bool, notice: Option<String> },
    /// Whether the profile is the one in use is being asked.
    CheckingCurrent,
    /// The core's configuration is being updated.
    Refreshing,
    Finished,
}

/// What comes back from outside.
#[derive(Debug)]
pub enum ProfileEvent {
    Decided(Result<Option<(String, Option<PrfOption>)>, CoreError>),
    Downloaded { item: Option<PrfItem>, notice: Option<String> },
    LockTaken,
    /// Whether no newer download has begun.
    Commit(bool),
    Reread(Option<PrfItem>),
    /// Whether what was downloaded was saved, and not found outdated.
    Saved(Result<bool, CoreError>),
    Current(bool),
    Refreshed,
}

/// What to do next. What is held is given back with `Finish`.
#[derive(Debug)]
pub enum ProfileAction {
    Decide,
    Download,
    AwaitLock,
    TakeCommit,
    Reread,
    Save(PrfItem),
    /// To tell the user that the profile of this name was downloaded through a
    /// proxy, if it was; then to ask whether the profile is in use.
    CheckCurrent { notice: Option<String> },
    /// To tell the user so, if it was, and then to update the core's
    /// configuration.
    RefreshRuntime { notice: Option<String> },
    /// To tell the user so, if it was, and then to end.
    Finish { result: Result<(), CoreError>, notice: Option<String> },
    Ignore,
}

/// An update ends.
pub open spec fn profile_end(result: Result<(), CoreError>, notice: Option<String>) -> (
    ProfileFlow,
    ProfileAction,
) {
    (ProfileFlow::Finished, ProfileAction::Finish { result, notice })
}

/// What follows a download, or the decision that there is none.
pub open spec fn after_download(
    refresh: bool,
    snapshot: Option<(String, Option<PrfOption>)>,
    item: Option<PrfItem>,
    notice: Option<String>,
) -> (ProfileFlow, ProfileAction) {
    if item is Some || refresh {
        (ProfileFlow::TakingLock { refresh, snapshot, item, notice }, ProfileAction::AwaitLock)
    } else {
        profile_end(Ok(()), None)
    }
}

/// What follows once what was downloaded is saved, or there is nothing to
/// save: the core's configuration follows a profile that is in use, and a
/// request without a download.
pub open spec fn after_saving(refresh: bool, downloads: bool, notice: Option<String>) -> (
    ProfileFlow,
    ProfileAction,
) {
    if !refresh {
        profile_end(Ok(()), notice)
    } else if downloads {
        (ProfileFlow::CheckingCurrent, ProfileAction::CheckCurrent { notice })
    } else {
        (ProfileFlow::Refreshing, ProfileAction::RefreshRuntime { notice })
    }
}

/// Where an update of a profile goes from `flow` on `event`.
pub open spec fn profile_next(flow: ProfileFlow, event: ProfileEvent) -> (
    ProfileFlow,
    ProfileAction,
) {
    match (flow, event) {
        (ProfileFlow::Deciding { refresh }, ProfileEvent::Decided(decided)) => match decided {
            Err(error) => profile_end(Err(error), None),
            Ok(Some(snapshot)) => (
                ProfileFlow::Downloading { refresh, snapshot },
                ProfileAction::Download,
            ),
            Ok(None) => after_download(refresh, None, None, None),
        },
        (
            ProfileFlow::Downloading { refresh, snapshot },
            ProfileEvent::Downloaded { item, notice },
        ) => after_download(refresh, Some(snapshot), item, notice),
        (
            ProfileFlow::TakingLock { refresh, snapshot, item, notice },
            ProfileEvent::LockTaken,
        ) => match snapshot {
            Some(snapshot) => (
                ProfileFlow::TakingCommit { refresh, snapshot, item, notice },
                ProfileAction::TakeCommit,
            ),
            None => (
                ProfileFlow::Rereading { refresh, snapshot: None, item, notice },
                ProfileAction::Reread,
            ),
        },
        (
            ProfileFlow::TakingCommit { refresh, snapshot, item, notice },
            ProfileEvent::Commit(newest),
        ) => if newest {
            (
                ProfileFlow::Rereading { refresh, snapshot: Some(snapshot), item, notice },
                ProfileAction::Reread,
            )
        } else {
            profile_end(Ok(()), None)
        },
        (
            ProfileFlow::Rereading { refresh, snapshot, item, notice },
            ProfileEvent::Reread(current),
        ) => match revalidated(current, snapshot, item, notice) {
            (Some(item), notice) => if snapshot is None {
                profile_end(Err(CoreError::of(Note::CommitGuardMissing)), None)
            } else {
                (ProfileFlow::Saving { refresh, notice }, ProfileAction::Save(item))
            },
            (None, _) => after_saving(refresh, snapshot is Some, None),
        },
        (ProfileFlow::Saving { refresh, notice }, ProfileEvent::Saved(saved)) => match saved {
            Err(error) => profile_end(Err(error), None),
            Ok(false) => profile_end(Ok(()), None),
            Ok(true) => after_saving(refresh, true, notice),
        },
        (ProfileFlow::CheckingCurrent, ProfileEvent::Current(current)) => if current {
            (ProfileFlow::Refreshing, ProfileAction::RefreshRuntime { notice: None })
        } else {
            profile_end(Ok(()), None)
        },
        (ProfileFlow::Refreshing, ProfileEvent::Refreshed) => profile_end(Ok(()), None),
        (flow, _) => (flow, ProfileAction::Ignore),
    }
}

/// Begins an update of a profile.
pub fn update_profile(auto_refresh: bool) -> (r: (ProfileFlow, ProfileAction))
    ensures
        r == ((ProfileFlow::Deciding { refresh: auto_refresh }), ProfileAction::Decide),
{
    (ProfileFlow::Deciding { refresh: auto_refresh }, ProfileAction::Decide)
}

fn end_profile(result: Result<(), CoreError>, notice: Option<String>) -> (r: (
    ProfileFlow,
    ProfileAction,
))
    ensures
        r == profile_end(result, notice),
{
    (ProfileFlow::Finished, ProfileAction::Finish { result, notice })
}

fn follow_download(
    refresh: bool,
    snapshot: Option<(String, Option<PrfOption>)>,
    item: Option<PrfItem>,
    notice: Option<String>,
) -> (r: (ProfileFlow, ProfileAction))
    ensures
        r == after_download(refresh, snapshot, item, notice),
{
    if item.is_some() || refresh {
        (ProfileFlow::TakingLock { refresh, snapshot, item, notice }, ProfileAction::AwaitLock)
    } else {
        end_profile(Ok(()), None)
    }
}

fn follow_saving(refresh: bool, downloads: bool, notice: Option<String>) -> (r: (
    ProfileFlow,
    ProfileAction,
))
    ensures
        r == after_saving(refresh, downloads, notice),
{
    if !refresh {
        end_profile(Ok(()), notice)
    } else if downloads {
        (ProfileFlow::CheckingCurrent, ProfileAction::CheckCurrent { notice })
    } else {
        (ProfileFlow::Refreshing, ProfileAction::RefreshRuntime { notice })
    }
}

/// Takes an update of a profile one event further.
pub fn profile_step(flow: ProfileFlow, event: ProfileEvent) -> (r: (ProfileFlow, ProfileAction))
    ensures
        r == profile_next(flow, event),
{
    match (flow, event) {
        (ProfileFlow::Deciding { refresh }, ProfileEvent::Decided(decided)) => match decided {
            Err(error) => end_profile(Err(error), None),
            Ok(Some(snapshot)) => (
                ProfileFlow::Downloading { refresh, snapshot },
                ProfileAction::Download,
            ),
            Ok(None) => follow_download(refresh, None, None, None),
        },
        (
            ProfileFlow::Downloading { refresh, snapshot },
            ProfileEvent::Downloaded { item, notice },
        ) => follow_download(refresh, Some(snapshot), item, notice),
        (
            ProfileFlow::TakingLock { refresh, snapshot, item, notice },
            ProfileEvent::LockTaken,
        ) => match snapshot {
            Some(snapshot) => (
                ProfileFlow::TakingCommit { refresh, snapshot, item, notice },
                ProfileAction::TakeCommit,
            ),
            None => (
                ProfileFlow::Rereading { refresh, snapshot: None, item, notice },
                ProfileAction::Reread,
            ),
        },
        (
            ProfileFlow::TakingCommit { refresh, snapshot, item, notice },
            ProfileEvent::Commit(newest),
        ) => if newest {
            (
                ProfileFlow::Rereading { refresh, snapshot: Some(snapshot), item, notice },
                ProfileAction::Reread,
            )
        } else {
            end_profile(Ok(()), None)
        },
        (
            ProfileFlow::Rereading { refresh, snapshot, item, notice },
            ProfileEvent::Reread(current),
        ) => {
            let downloads = snapshot.is_some();
            match revalidate_downloaded_profile(current, snapshot, item, notice) {
                (Some(item), notice) => if !downloads {
                    end_profile(Err(note_error(Note::CommitGuardMissing)), None)
                } else {
                    (ProfileFlow::Saving { refresh, notice }, ProfileAction::Save(item))
                },
                (None, _) => follow_saving(refresh, downloads, None),
            }
        },
        (ProfileFlow::Saving { refresh, notice }, ProfileEvent::Saved(saved)) => match saved {
            Err(error) => end_profile(Err(error), None),
            Ok(false) => end_profile(Ok(()), None),
            Ok(true) => follow_saving(refresh, true, notice),
        },
        (ProfileFlow::CheckingCurrent, ProfileEvent::Current(current)) => if current {
            (ProfileFlow::Refreshing, ProfileAction::RefreshRuntime { notice: None })
        } else {
            end_profile(Ok(()), None)
        },
        (ProfileFlow::Refreshing, ProfileEvent::Refreshed) => end_profile(Ok(()), None),
        (flow, _) => (flow, ProfileAction::Ignore),
    }
}

/// Begins to bring the core's configuration up to date with the profiles.
pub fn enhance_profiles(manager: &CoreManager) -> (r: (UpdateFlow, UpdateAction))
    ensures
        r == ((UpdateFlow::CheckingExit { force: true }), UpdateAction::QueryExiting),
{
    manager.update_config_forced()
}

/// Where switching a group to another node stands.
#[derive(Debug, Clone, Copy, PartialEq, Eq, Structural)]
pub enum SwitchFlow {
    Switching,
    SwitchingAgain,
    Finished,
}

/// What to do next.
#[derive(Debug, Clone, Copy, PartialEq, Eq, Structural)]
pub enum SwitchAction {
    Switch,
    /// The node has been switched: the menu is brought up to date, and the
    /// user interface too if `announce`.
    Done { announce: bool },
    GiveUp,
    Ignore,
}

/// Begins to switch a group to another node.
pub fn switch_proxy_node() -> (r: (SwitchFlow, SwitchAction))
    ensures
        r == (SwitchFlow::Switching, SwitchAction::Switch),
{
    (SwitchFlow::Switching, SwitchAction::Switch)
}

/// Takes switching one try further; there are two, and only the first is
/// announced.
pub fn switch_step(flow: SwitchFlow, switched: bool) -> (r: (SwitchFlow, SwitchAction))
    ensures
        r == (match (flow, switched) {
            (SwitchFlow::Switching, true) => (
                SwitchFlow::Finished,
                (SwitchAction::Done { announce: true }),
            ),
            (SwitchFlow::Switching, false) => (SwitchFlow::SwitchingAgain, SwitchAction::Switch),
            (SwitchFlow::SwitchingAgain, true) => (
                SwitchFlow::Finished,
                (SwitchAction::Done { announce: false }),
            ),
            (SwitchFlow::SwitchingAgain, false) => (SwitchFlow::Finished, SwitchAction::GiveUp),
            (SwitchFlow::Finished, _) => (SwitchFlow::Finished, SwitchAction::Ignore),
        }),
{
    match (flow, switched) {
        (SwitchFlow::Switching, true) => (
            SwitchFlow::Finished,
            SwitchAction::Done { announce: true },
        ),
        (SwitchFlow::Switching, false) => (SwitchFlow::SwitchingAgain, SwitchAction::Switch),
        (SwitchFlow::SwitchingAgain, true) => (
            SwitchFlow::Finished,
            SwitchAction::Done { announce: false },
        ),
        (SwitchFlow::SwitchingAgain, false) => (SwitchFlow::Finished, SwitchAction::GiveUp),
        (SwitchFlow::Finished, _) => (SwitchFlow::Finished, SwitchAction::Ignore),
    }
}

/// What was downloaded is saved only where the profile still was what the
/// download had begun from.
pub proof fn law_only_a_current_download_is_saved(flow: ProfileFlow, event: ProfileEvent)
    requires
        profile_next(flow, event).1 is Save,
    ensures
        flow matches ProfileFlow::Rereading { refresh, snapshot, item, notice } && {
            &&& snapshot is Some
            &&& item == Some(profile_next(flow, event).1->Save_0)
            &&& event is Reread
            &&& still_source(
                event->Reread_0,
                (snapshot->0).0@,
                option_view((snapshot->0).1),
            )
        },
{
}

/// Whether something is saved while `events` come in.
pub open spec fn saves(flow: ProfileFlow, events: Seq<ProfileEvent>) -> bool
    decreases events.len(),
{
    events.len() > 0 && {
        let next = profile_next(flow, events[0]);
        next.1 is Save || saves(next.0, events.drop_first())
    }
}

/// Whether an update stands where nothing has been downloaded that may be
/// saved: it has not been asked, or not been answered, whether a newer download
/// has begun, or there is no download.
pub open spec fn uncommitted(flow: ProfileFlow) -> bool {
    match flow {
        ProfileFlow::Rereading { snapshot, .. } => snapshot is None,
        _ => true,
    }
}

/// Whatever happens during an update, nothing is saved unless it was found
/// that no newer download had begun.
pub proof fn law_nothing_is_saved_uncommitted(flow: ProfileFlow, events: Seq<ProfileEvent>)
    requires
        uncommitted(flow),
        forall|i: int| 0 <= i < events.len() ==> events[i] != ProfileEvent::Commit(true),
    ensures
        !saves(flow, events),
    decreases events.len(),
{
    if events.len() > 0 {
        assert(events[0] != ProfileEvent::Commit(true));
        let rest = events.drop_first();
        assert forall|i: int| 0 <= i < rest.len() implies rest[i] != ProfileEvent::Commit(true) by {
            assert(rest[i] == events[i + 1]);
        }
        law_nothing_is_saved_uncommitted(profile_next(flow, events[0]).0, rest);
    }
}

/// A download that turns out not to be the newest ends the update at once.
pub proof fn law_outdated_download_ends_the_update(flow: ProfileFlow)
    requires
        flow is TakingCommit,
    ensures
        profile_next(flow, ProfileEvent::Commit(false)) == profile_end(Ok(()), None),
{
}

/// How many times a profile is downloaded while tries come in.
pub open spec fn tries_made(flow: DownloadFlow, outcomes: Seq<Result<PrfItem, Failure>>) -> nat
    decreases outcomes.len(),
{
    if outcomes.len() == 0 {
        0
    } else {
        let next = download_next(flow, outcomes[0]);
        (if next.1 is Download {
            1nat
        } else {
            0nat
        }) + tries_made(next.0, outcomes.drop_first())
    }
}

/// A profile is tried at most twice more after the first time, and not at all
/// once it has been downloaded.
pub proof fn law_download_is_tried_three_times(
    flow: DownloadFlow,
    outcomes: Seq<Result<PrfItem, Failure>>,
)
    ensures
        tries_made(flow, outcomes) <= 2,
        flow is ThroughCore ==> tries_made(flow, outcomes) <= 1,
        flow is ThroughSystem || flow is Finished ==> tries_made(flow, outcomes) == 0,
        outcomes.len() > 0 && outcomes[0] is Ok ==> tries_made(flow, outcomes) == 0,
    decreases outcomes.len(),
{
    if outcomes.len() > 0 {
        let next = download_next(flow, outcomes[0]);
        law_download_is_tried_three_times(next.0, outcomes.drop_first());
    }
}

/// A remote profile with an address is downloaded, from its own address and in
/// its own way, unless it is updated without being asked to and its user has
/// forbidden just that; one that the user asks for is always downloaded.
pub proof fn law_allowed_profile_is_downloaded(item: PrfItem, asked: bool)
    requires
        item.itype is Some,
        item.itype->0@ == "remote"@,
        item.url is Some,
    ensures
        ({
            let forbidden = item.option is Some && item.option->0.allow_auto_update == Some(false);
            &&& update_source(item, asked) is Ok
            &&& update_source(item, asked)->Ok_0 is None <==> !asked && forbidden
            &&& asked || !forbidden ==> update_source(item, asked)->Ok_0 == Some(
                (item.url->0, item.option),
            )
        }),
{
}

/// A profile that is not remote is not downloaded, and a remote one without an
/// address is an error, whoever asks.
pub proof fn law_only_remote_profiles_are_downloaded(item: PrfItem, asked: bool)
    ensures
        item.itype is None || item.itype->0@ != "remote"@ ==> update_source(item, asked) == Ok::<
            Option<(String, Option<PrfOption>)>,
            CoreError,
        >(None),
        item.itype is Some && item.itype->0@ == "remote"@ && item.url is None ==> update_source(
            item,
            asked,
        ) == Err::<Option<(String, Option<PrfOption>)>, CoreError>(
            CoreError::Plain(crate::error::Message::Note(Note::ProfileUrlMissing)),
        ),
{
}

/// Two ways of downloading are the same exactly where nothing of them differs.
pub proof fn law_ways_are_told_apart_in_full(a: PrfOption, b: PrfOption)
    ensures
        a@ == b@ <==> {
            &&& crate::text::text_view(a.user_agent) == crate::text::text_view(b.user_agent)
            &&& a.with_proxy == b.with_proxy && a.self_proxy == b.self_proxy
            &&& a.update_interval == b.update_interval && a.timeout_seconds == b.timeout_seconds
            &&& a.danger_accept_invalid_certs == b.danger_accept_invalid_certs
            &&& a.allow_auto_update == b.allow_auto_update
            &&& crate::text::text_view(a.merge) == crate::text::text_view(b.merge)
            &&& crate::text::text_view(a.script) == crate::text::text_view(b.script)
            &&& crate::text::text_view(a.rules) == crate::text::text_view(b.rules)
            &&& crate::text::text_view(a.proxies) == crate::text::text_view(b.proxies)
            &&& crate::text::text_view(a.groups) == crate::text::text_view(b.groups)
        },
        option_view(Some(a)) == option_view(Some(b)) <==> a@ == b@,
        option_view(Some(a)) != option_view(None),
{
}

/// A profile still is what a download began from exactly where it is there, is
/// remote, and has the same address and way; what was decided on for it is
/// what it still is.
pub proof fn law_changed_profile_is_noticed(
    item: PrfItem,
    url: Seq<char>,
    option: Option<PrfOption>,
    asked: bool,
)
    ensures
        !still_source(None, url, option_view(option)),
        still_source(Some(item), url, option_view(option)) <==> {
            &&& item.itype is Some && item.itype->0@ == "remote"@
            &&& item.url is Some && item.url->0@ == url
            &&& option_view(item.option) == option_view(option)
        },
        update_source(item, asked) matches Ok(Some(source)) ==> still_source(
            Some(item),
            source.0@,
            option_view(source.1),
        ),
{
}

/// A profile is tried plainly, then through the core, and then through the
/// system's proxy: each way but the proxies is as it was, and exactly one proxy
/// is used at a time.
pub proof fn law_download_goes_through_one_proxy_at_a_time(
    option: Option<PrfOption>,
    name: String,
    manual: bool,
    first: Failure,
    second: Failure,
)
    ensures
        ({
            let base = match option {
                Some(given) => given,
                None => PrfOption::blank(),
            };
            let core = download_next(
                DownloadFlow::Plainly { option, name, manual },
                Err(first),
            );
            let system = download_next(core.0, Err(second));
            &&& core.1 == DownloadAction::Download(
                Some(PrfOption { self_proxy: Some(true), with_proxy: Some(false), ..base }),
            )
            &&& system.1 == DownloadAction::Download(
                Some(PrfOption { self_proxy: Some(false), with_proxy: Some(true), ..base }),
            )
        }),
{
}

/// The first try that works ends a download with what it brought; the user is
/// told by name of a profile that took a proxy, and of one that could not be
/// downloaded only where they asked for it, with the last failure.
pub proof fn law_download_ends_with_the_first_success(
    flow: DownloadFlow,
    downloaded: Result<PrfItem, Failure>,
)
    ensures
        ({
            let next = download_next(flow, downloaded);
            match next.1 {
                DownloadAction::Done { item, proxy_notice } => {
                    &&& next.0 is Finished && downloaded == Ok::<PrfItem, Failure>(item)
                    &&& match flow {
                        DownloadFlow::Plainly { .. } => proxy_notice is None,
                        DownloadFlow::ThroughCore { name, .. } => proxy_notice == Some(name),
                        DownloadFlow::ThroughSystem { name, .. } => proxy_notice == Some(name),
                        DownloadFlow::Finished => false,
                    }
                },
                DownloadAction::Download(_) => {
                    &&& downloaded is Err
                    &&& match flow {
                        DownloadFlow::Plainly { name, manual, .. } => {
                            &&& next.0 matches DownloadFlow::ThroughCore {
                                name: same,
                                manual: also,
                                option,
                            }
                            &&& same == name && also == manual
                            &&& next.1 == DownloadAction::Download(Some(option))
                        },
                        DownloadFlow::ThroughCore { name, manual, .. } => next.0
                            == (DownloadFlow::ThroughSystem { name, manual }),
                        _ => false,
                    }
                },
                DownloadAction::GiveUp { notice } => {
                    &&& next.0 is Finished
                    &&& flow matches DownloadFlow::ThroughSystem { name, manual }
                    &&& downloaded matches Err(failure)
                    &&& manual ==> notice == Some((name, failure))
                    &&& !manual ==> notice is None
                },
                DownloadAction::Ignore => flow is Finished && next.0 is Finished,
            }
        }),
{
}

/// What was downloaded is kept exactly where the profile still is what the
/// download began from; otherwise it is dropped, and so is the notice.
pub proof fn law_stale_download_is_dropped(
    current: Option<PrfItem>,
    snapshot: Option<(String, Option<PrfOption>)>,
    item: PrfItem,
    notice: Option<String>,
)
    ensures
        ({
            let kept = revalidated(current, snapshot, Some(item), notice);
            let same = current is Some && snapshot is Some && {
                let profile = current->0;
                &&& profile.itype is Some && profile.itype->0@ == "remote"@
                &&& profile.url is Some && profile.url->0@ == (snapshot->0).0@
                &&& option_view(profile.option) == option_view((snapshot->0).1)
            };
            &&& same ==> kept == (Some(item), notice)
            &&& !same ==> kept == (None::<PrfItem>, None::<String>)
        }),
        revalidated(current, snapshot, None, notice) == (None::<PrfItem>, notice),
{
}

/// What an update of a profile does, it does for a reason: for each thing that
/// it asks for, where it stood, what came in, and how it goes on.
pub proof fn law_profile_update_acts_for_a_reason(flow: ProfileFlow, event: ProfileEvent)
    ensures
        ({
            let next = profile_next(flow, event);
            match next.1 {
                ProfileAction::Decide => false,
                ProfileAction::Download => {
                    &&& flow matches ProfileFlow::Deciding { refresh }
                    &&& event matches ProfileEvent::Decided(Ok(Some(snapshot)))
                    &&& next.0 == ProfileFlow::Downloading { refresh, snapshot }
                },
                ProfileAction::AwaitLock => {
                    &&& next.0 matches ProfileFlow::TakingLock { refresh, snapshot, item, notice }
                    &&& match (flow, event) {
                        (ProfileFlow::Deciding { refresh: same }, ProfileEvent::Decided(Ok(None)))
                            => same && refresh && snapshot is None && item is None
                            && notice is None,
                        (
                            ProfileFlow::Downloading { refresh: same, snapshot: from },
                            ProfileEvent::Downloaded { item: brought, notice: told },
                        ) => (brought is Some || same) && refresh == same && snapshot == Some(from)
                            && item == brought && notice == told,
                        _ => false,
                    }
                },
                ProfileAction::TakeCommit => {
                    &&& flow matches ProfileFlow::TakingLock {
                        refresh,
                        snapshot: Some(snapshot),
                        item,
                        notice,
                    }
                    &&& event is LockTaken
                    &&& next.0 == ProfileFlow::TakingCommit { refresh, snapshot, item, notice }
                },
                ProfileAction::Reread => {
                    &&& next.0 matches ProfileFlow::Rereading { refresh, snapshot, item, notice }
                    &&& match flow {
                        ProfileFlow::TakingLock {
                            refresh: a,
                            snapshot: b,
                            item: c,
                            notice: d,
                        } => event is LockTaken && b is None && snapshot is None && a == refresh
                            && c == item && d == notice,
                        ProfileFlow::TakingCommit {
                            refresh: a,
                            snapshot: b,
                            item: c,
                            notice: d,
                        } => event == ProfileEvent::Commit(true) && snapshot == Some(b) && a
                            == refresh && c == item && d == notice,
                        _ => false,
                    }
                },
                ProfileAction::Save(saved) => {
                    &&& flow matches ProfileFlow::Rereading { refresh, snapshot, item, notice }
                    &&& event matches ProfileEvent::Reread(current)
                    &&& revalidated(current, snapshot, item, notice).0 == Some(saved)
                    &&& snapshot is Some && item == Some(saved)
                    &&& next.0 == ProfileFlow::Saving { refresh, notice }
                },
                ProfileAction::CheckCurrent { notice } => {
                    &&& next.0 is CheckingCurrent
                    &&& match flow {
                        ProfileFlow::Saving { refresh, notice: told } => refresh && event is Saved
                            && event->Saved_0 == Ok::<bool, CoreError>(true) && notice == told,
                        ProfileFlow::Rereading { refresh, snapshot, item, notice: told } => {
                            &&& event matches ProfileEvent::Reread(current)
                            &&& revalidated(current, snapshot, item, told).0 is None
                            &&& refresh && snapshot is Some && notice is None
                        },
                        _ => false,
                    }
                },
                ProfileAction::RefreshRuntime { notice } => {
                    &&& next.0 is Refreshing && notice is None
                    &&& match flow {
                        ProfileFlow::CheckingCurrent => event == ProfileEvent::Current(true),
                        ProfileFlow::Rereading { refresh, snapshot, item, notice: told } => {
                            &&& event matches ProfileEvent::Reread(current)
                            &&& refresh && snapshot is None
                        },
                        _ => false,
                    }
                },
                ProfileAction::Finish { result: Err(error), notice } => {
                    &&& next.0 is Finished && notice is None
                    &&& match flow {
                        ProfileFlow::Deciding { .. } => event == ProfileEvent::Decided(Err(error)),
                        ProfileFlow::Saving { .. } => event == ProfileEvent::Saved(Err(error)),
                        _ => false,
                    }
                },
                ProfileAction::Finish { result: Ok(_), notice } => {
                    &&& next.0 is Finished
                    &&& notice is Some ==> flow is Saving
                    &&& match (flow, event) {
                        (ProfileFlow::Deciding { refresh }, ProfileEvent::Decided(Ok(None)))
                            => !refresh,
                        (
                            ProfileFlow::Downloading { refresh, .. },
                            ProfileEvent::Downloaded { item, .. },
                        ) => !refresh && item is None,
                        (ProfileFlow::TakingCommit { .. }, ProfileEvent::Commit(newest)) => !newest,
                        (
                            ProfileFlow::Rereading { refresh, snapshot, item, notice: told },
                            ProfileEvent::Reread(current),
                        ) => !refresh && revalidated(current, snapshot, item, told).0 is None,
                        (
                            ProfileFlow::Saving { refresh, notice: told },
                            ProfileEvent::Saved(Ok(newest)),
                        ) => if newest {
                            !refresh && notice == told
                        } else {
                            notice is None
                        },
                        (ProfileFlow::CheckingCurrent, ProfileEvent::Current(current)) => !current,
                        (ProfileFlow::Refreshing, ProfileEvent::Refreshed) => true,
                        _ => false,
                    }
                },
                ProfileAction::Ignore => {
                    &&& next.0 == flow
                    &&& !(flow is Deciding && event is Decided)
                    &&& !(flow is Downloading && event is Downloaded)
                    &&& !(flow is TakingLock && event is LockTaken)
                    &&& !(flow is TakingCommit && event is Commit)
                    &&& !(flow is Rereading && event is Reread)
                    &&& !(flow is Saving && event is Saved)
                    &&& !(flow is CheckingCurrent && event is Current)
                    &&& !(flow is Refreshing && event is Refreshed)
                },
            }
        }),
{
}

/// An update of the core's configuration that was put off, or not made because
/// another was under way, is no news; one that failed or worked is.
pub proof fn law_put_off_update_is_no_news(outcome: ValidationOutcome)
    ensures
        is_skip(outcome) <==> outcome is Skipped || outcome is Busy,
        outcome is Valid || outcome is Invalid ==> !is_skip(outcome),
{
}

/// A way of downloading in which nothing is given uses no proxy and may be used
/// without being asked to.
pub proof fn law_blank_way_gives_nothing()
    ensures
        PrfOption::blank().self_proxy is None,
        PrfOption::blank().with_proxy is None,
        PrfOption::blank().allow_auto_update is None,
        PrfOption::blank().user_agent is None,
        PrfOption::blank().update_interval is None,
        PrfOption::blank().timeout_seconds is None,
        PrfOption::blank().danger_accept_invalid_certs is None,
        PrfOption::blank().merge is None && PrfOption::blank().script is None,
        PrfOption::blank().rules is None && PrfOption::blank().proxies is None,
        PrfOption::blank().groups is None,
{
}

} // verus!
