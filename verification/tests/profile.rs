use clash_verge::error::{CoreError, Failure};
use clash_verge::feat::profile::{
    download_failure_message, download_step, enhance_profiles, perform_profile_update,
    profile_download_snapshot_matches, profile_name, profile_step, refresh_profile_runtime,
    revalidate_downloaded_profile, should_update_profile, switch_proxy_node, switch_step,
    update_profile, DownloadAction, PrfItem, PrfOption, ProfileAction, ProfileEvent, ProfileFlow,
    RefreshOutcome, SwitchAction,
};
use clash_verge::manager::config::UpdateAction;
use clash_verge::manager::CoreManager;
use clash_verge::platform::Platform;
use clash_verge::validation::{ValidationOutcome, ValidationSkipReason};

fn failure(text: &str) -> Failure {
    Failure { summary: text.to_owned(), detail: format!("{text}: cause") }
}

fn remote_item(url: &str, option: Option<PrfOption>) -> PrfItem {
    PrfItem {
        itype: Some("remote".into()),
        url: Some(url.into()),
        option,
        ..PrfItem::default()
    }
}

#[test]
fn downloaded_profile_requires_its_original_url_and_options() {
    let option =
        PrfOption { user_agent: Some("snapshot-agent".into()), ..PrfOption::default() };
    let item = remote_item("https://example.test/profile", Some(option.clone()));
    let url = "https://example.test/profile";

    assert!(profile_download_snapshot_matches(Some(&item), url, Some(&option)));
    assert!(!profile_download_snapshot_matches(
        Some(&remote_item("https://example.test/changed", Some(option.clone()))),
        url,
        Some(&option)
    ));
    assert!(!profile_download_snapshot_matches(
        Some(&remote_item("https://example.test/profile", None)),
        url,
        Some(&option)
    ));
    assert!(!profile_download_snapshot_matches(None, url, Some(&option)));
}

#[test]
fn only_remote_profiles_are_downloaded() {
    assert!(should_update_profile(&PrfItem::default(), true).unwrap().is_none());
    let mut item = remote_item("u", None);
    item.itype = Some("local".to_owned());
    assert!(should_update_profile(&item, true).unwrap().is_none());

    let mut item = remote_item("u", None);
    item.url = None;
    assert_eq!(
        should_update_profile(&item, false).unwrap_err().summary(),
        "failed to get the profile item url"
    );

    let held = PrfOption { allow_auto_update: Some(false), ..PrfOption::default() };
    let item = remote_item("u", Some(held.clone()));
    assert!(should_update_profile(&item, false).unwrap().is_none());
    assert_eq!(
        should_update_profile(&item, true).unwrap(),
        Some(("u".to_owned(), Some(held)))
    );
    assert_eq!(
        should_update_profile(&remote_item("u", None), false).unwrap(),
        Some(("u".to_owned(), None))
    );
}

#[test]
fn download_is_tried_plainly_through_the_core_and_through_the_system() {
    let (flow, action) = perform_profile_update(None, profile_name(None), true);
    assert!(matches!(action, DownloadAction::Download(None)));
    let (flow, action) = download_step(flow, Err(failure("one")));
    match &action {
        DownloadAction::Download(Some(option)) => {
            assert_eq!((option.self_proxy, option.with_proxy), (Some(true), Some(false)))
        }
        other => panic!("{other:?}"),
    }
    let (flow, action) = download_step(flow, Err(failure("two")));
    match &action {
        DownloadAction::Download(Some(option)) => {
            assert_eq!((option.self_proxy, option.with_proxy), (Some(false), Some(true)))
        }
        other => panic!("{other:?}"),
    }
    match download_step(flow, Err(failure("three"))).1 {
        DownloadAction::GiveUp { notice: Some((name, failure)) } => assert_eq!(
            download_failure_message(&name, &failure),
            "UnKnown Profile - three"
        ),
        other => panic!("{other:?}"),
    }

    let kept = PrfOption { timeout_seconds: Some(9), ..PrfOption::default() };
    let (flow, _) = perform_profile_update(Some(kept), "mine".to_owned(), false);
    let (flow, action) = download_step(flow, Err(failure("one")));
    match &action {
        DownloadAction::Download(Some(option)) => assert_eq!(option.timeout_seconds, Some(9)),
        other => panic!("{other:?}"),
    }
    match download_step(flow, Ok(remote_item("u", None))).1 {
        DownloadAction::Done { item, proxy_notice } => {
            assert_eq!(item.url.as_deref(), Some("u"));
            assert_eq!(proxy_notice.as_deref(), Some("mine"));
        }
        other => panic!("{other:?}"),
    }
    let (flow, _) = perform_profile_update(None, "mine".to_owned(), false);
    assert!(matches!(
        download_step(flow, Ok(remote_item("u", None))).1,
        DownloadAction::Done { proxy_notice: None, .. }
    ));
}

#[test]
fn changed_profile_drops_its_download() {
    let snapshot = || Some(("u".to_owned(), None));
    let notice = || Some("n".to_owned());
    let (item, told) = revalidate_downloaded_profile(
        Some(remote_item("u", None)),
        snapshot(),
        Some(remote_item("new", None)),
        notice(),
    );
    assert!(item.is_some() && told.is_some());
    let (item, told) = revalidate_downloaded_profile(
        Some(remote_item("other", None)),
        snapshot(),
        Some(remote_item("new", None)),
        notice(),
    );
    assert!(item.is_none() && told.is_none());
    let (item, told) = revalidate_downloaded_profile(None, None, None, notice());
    assert!(item.is_none() && told.is_some());
}

#[test]
fn profile_is_updated_and_the_core_follows() {
    let (flow, action) = update_profile(true);
    assert!(matches!(action, ProfileAction::Decide));
    let decided = ProfileEvent::Decided(Ok(Some(("u".to_owned(), None))));
    let (flow, action) = profile_step(flow, decided);
    assert!(matches!(action, ProfileAction::Download));
    let downloaded = ProfileEvent::Downloaded {
        item: Some(remote_item("u", None)),
        notice: Some("n".to_owned()),
    };
    let (flow, action) = profile_step(flow, downloaded);
    assert!(matches!(action, ProfileAction::AwaitLock));
    let (flow, action) = profile_step(flow, ProfileEvent::LockTaken);
    assert!(matches!(action, ProfileAction::TakeCommit));
    let (flow, action) = profile_step(flow, ProfileEvent::Commit(true));
    assert!(matches!(action, ProfileAction::Reread));
    let (flow, action) = profile_step(flow, ProfileEvent::Reread(Some(remote_item("u", None))));
    assert!(matches!(action, ProfileAction::Save(_)));
    let (flow, action) = profile_step(flow, ProfileEvent::Saved(Ok(true)));
    match &action {
        ProfileAction::CheckCurrent { notice } => assert_eq!(notice.as_deref(), Some("n")),
        other => panic!("{other:?}"),
    }
    let (flow, action) = profile_step(flow, ProfileEvent::Current(true));
    assert!(matches!(action, ProfileAction::RefreshRuntime { notice: None }));
    let (flow, action) = profile_step(flow, ProfileEvent::Refreshed);
    assert!(matches!(flow, ProfileFlow::Finished));
    assert!(matches!(action, ProfileAction::Finish { result: Ok(()), notice: None }));
}

#[test]
fn outdated_download_is_not_saved() {
    let committing = || ProfileFlow::TakingCommit {
        refresh: true,
        snapshot: ("u".to_owned(), None),
        item: Some(remote_item("u", None)),
        notice: None,
    };
    assert!(matches!(
        profile_step(committing(), ProfileEvent::Commit(false)).1,
        ProfileAction::Finish { result: Ok(()), notice: None }
    ));
    let (flow, _) = profile_step(committing(), ProfileEvent::Commit(true));
    assert!(matches!(
        profile_step(flow, ProfileEvent::Reread(None)).1,
        ProfileAction::CheckCurrent { notice: None }
    ));
    let saving = || ProfileFlow::Saving { refresh: false, notice: Some("n".to_owned()) };
    assert!(matches!(
        profile_step(saving(), ProfileEvent::Saved(Ok(false))).1,
        ProfileAction::Finish { result: Ok(()), notice: None }
    ));
    match profile_step(saving(), ProfileEvent::Saved(Ok(true))).1 {
        ProfileAction::Finish { result: Ok(()), notice } => {
            assert_eq!(notice.as_deref(), Some("n"))
        }
        other => panic!("{other:?}"),
    }
}

#[test]
fn profile_without_a_download_still_refreshes_the_core() {
    let (flow, _) = update_profile(false);
    assert!(matches!(
        profile_step(flow, ProfileEvent::Decided(Ok(None))).1,
        ProfileAction::Finish { result: Ok(()), notice: None }
    ));
    let (flow, _) = update_profile(true);
    let (flow, action) = profile_step(flow, ProfileEvent::Decided(Ok(None)));
    assert!(matches!(action, ProfileAction::AwaitLock));
    let (flow, action) = profile_step(flow, ProfileEvent::LockTaken);
    assert!(matches!(action, ProfileAction::Reread));
    assert!(matches!(
        profile_step(flow, ProfileEvent::Reread(None)).1,
        ProfileAction::RefreshRuntime { notice: None }
    ));
}

#[test]
fn refresh_is_announced_or_explained() {
    let refresh = |updated, manual| refresh_profile_runtime(updated, "why".to_owned(), manual);
    assert!(matches!(refresh(Ok(ValidationOutcome::Valid), false), RefreshOutcome::Refresh));
    assert!(matches!(refresh(Ok(ValidationOutcome::Busy), false), RefreshOutcome::Quiet));
    let skipped = ValidationOutcome::Skipped { reason: ValidationSkipReason::Debounced };
    match refresh(Ok(skipped), true) {
        RefreshOutcome::Notify(text) => assert_eq!(text, "why"),
        other => panic!("{other:?}"),
    }
    let invalid = ValidationOutcome::Invalid { message: "m".to_owned() };
    assert!(matches!(refresh(Ok(invalid), false), RefreshOutcome::Notify(_)));
    match refresh(Err(CoreError::Outside(failure("x"))), false) {
        RefreshOutcome::Notify(text) => assert_eq!(text, "x"),
        other => panic!("{other:?}"),
    }
    let manager = CoreManager::new(Platform::Linux);
    assert!(matches!(enhance_profiles(&manager).1, UpdateAction::QueryExiting));
}

#[test]
fn node_is_switched_in_two_tries() {
    let (flow, action) = switch_proxy_node();
    assert_eq!(action, SwitchAction::Switch);
    assert_eq!(switch_step(flow, true).1, SwitchAction::Done { announce: true });
    let (flow, action) = switch_step(flow, false);
    assert_eq!(action, SwitchAction::Switch);
    assert_eq!(switch_step(flow, true).1, SwitchAction::Done { announce: false });
    assert_eq!(switch_step(flow, false).1, SwitchAction::GiveUp);
}
