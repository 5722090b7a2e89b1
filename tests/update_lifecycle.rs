use nchat_desktop::download::{progress_percent, DownloadProgress};
use nchat_desktop::lifecycle::{
    Busy, CheckError, EventBridge, FailureKind, InstallError, InvalidTransition, LifecycleState,
    UpdateEvent, FULL_PROGRESS,
};
use nchat_desktop::metadata::UpdateInfo;
use nchat_desktop::tracker::UpdateTracker;
use nchat_desktop::updater::{StartupCheck, UpdateManager};

fn release(version: &str, current: &str, size: Option<u64>) -> UpdateInfo {
    UpdateInfo::new(
        version.to_string(),
        current.to_string(),
        Some("Bug fixes".to_string()),
        Some("2024-05-01".to_string()),
        size,
    )
}

fn names(events: &[UpdateEvent]) -> Vec<String> {
    events.iter().map(|e| e.name()).collect()
}

fn progress_ticks(events: &[UpdateEvent]) -> Vec<f64> {
    events
        .iter()
        .filter_map(|e| match e {
            UpdateEvent::DownloadProgress(p) => Some(*p as f64 / 100.0),
            _ => None,
        })
        .collect()
}

#[test]
fn full_install_reports_quarter_steps_then_installed() {
    let mut m = UpdateManager::new();
    let mut bridge = EventBridge::new(true);
    assert!(m.start_check().is_ok());
    let found = m
        .check_for_updates(Ok(Some(release("2.0.0", "1.5.0", Some(1000)))), &mut bridge)
        .unwrap()
        .unwrap();
    assert_eq!(found.version, "2.0.0");
    assert!(matches!(m.current(), LifecycleState::Available(_)));

    assert!(m.start_check().is_ok());
    let to_install = m
        .install_update(Ok(Some(release("2.0.0", "1.5.0", Some(1000)))), &mut bridge)
        .unwrap();
    assert_eq!(to_install.download_size, Some(1000));
    assert!(matches!(m.current(), LifecycleState::Downloading(0)));

    for _ in 0..4 {
        assert!(m.on_chunk(250, None, &mut bridge).is_ok());
    }
    assert_eq!(m.bytes_downloaded(), 1000);
    assert!(m.finish_download(Ok(()), &mut bridge).is_ok());
    assert!(matches!(m.current(), LifecycleState::Downloaded));

    let events = bridge.take_delivered();
    assert_eq!(progress_ticks(&events), vec![25.0, 50.0, 75.0, 100.0]);
    assert_eq!(names(&events).last().unwrap(), "update-installed");
    assert_eq!(
        names(&events),
        vec![
            "update-available",
            "update-available",
            "update-download-start",
            "update-download-progress",
            "update-download-progress",
            "update-download-progress",
            "update-download-progress",
            "update-installed",
        ]
    );
}

#[test]
fn negative_check_sends_one_no_update_event() {
    let mut m = UpdateManager::new();
    let mut bridge = EventBridge::new(true);
    assert!(m.start_check().is_ok());
    assert!(matches!(m.current(), LifecycleState::Checking));
    let reply = m.check_for_updates(Ok(None), &mut bridge);
    assert!(matches!(reply, Ok(None)));
    assert!(matches!(m.current(), LifecycleState::Idle));
    let n = names(&bridge.take_delivered());
    assert_eq!(n.iter().filter(|s| s.as_str() == "no-update-available").count(), 1);
    assert_eq!(n.iter().filter(|s| s.as_str() == "update-available").count(), 0);
}

#[test]
fn interrupted_download_fails_and_allows_a_new_check() {
    let mut m = UpdateManager::new();
    let mut bridge = EventBridge::new(true);
    assert!(m.start_check().is_ok());
    m.install_update(Ok(Some(release("2.0.0", "1.5.0", Some(1000)))), &mut bridge)
        .unwrap();
    assert!(m.on_chunk(250, None, &mut bridge).is_ok());
    assert!(m.on_chunk(250, None, &mut bridge).is_ok());
    let reply = m.finish_download(Err(InstallError::Download), &mut bridge);
    assert_eq!(reply, Err("update failed: download interrupted".to_string()));
    assert!(matches!(
        m.current(),
        LifecycleState::Failed(FailureKind::Install(InstallError::Download))
    ));
    let events = bridge.take_delivered();
    match events.last().unwrap() {
        UpdateEvent::Failed(k) => {
            assert_eq!(events.last().unwrap().name(), "update-failed");
            assert_eq!(k.kind_name(), "Download");
        },
        _ => panic!("last event is not a failure"),
    }
    assert!(m.start_check().is_ok());
    assert!(m.check_for_updates(Ok(None), &mut bridge).is_ok());
}

#[test]
fn second_check_while_checking_is_busy() {
    let mut t = UpdateTracker::new();
    assert_eq!(t.begin_check(), Ok(()));
    assert_eq!(t.begin_check(), Err(Busy));
    assert_eq!(t.begin_check(), Err(Busy));
    let mut bridge = EventBridge::new(true);
    assert!(t.record_check_result(Ok(None), &mut bridge).is_ok());
    assert_eq!(t.begin_check(), Ok(()));
}

#[test]
fn second_install_while_in_flight_is_busy() {
    let mut m = UpdateManager::new();
    let mut bridge = EventBridge::new(true);
    assert!(m.start_check().is_ok());
    assert_eq!(m.start_check(), Err(Busy));
    m.install_update(Ok(Some(release("2.0.0", "1.5.0", None))), &mut bridge)
        .unwrap();
    assert_eq!(m.start_check(), Err(Busy));
}

#[test]
fn same_version_is_treated_as_no_update() {
    let mut t = UpdateTracker::new();
    let mut bridge = EventBridge::new(true);
    t.begin_check().unwrap();
    let r = t.record_check_result(Ok(Some(release("1.5.0", "1.5.0", None))), &mut bridge);
    assert!(matches!(r, Ok(None)));
    assert!(matches!(t.current(), LifecycleState::Idle));
    assert_eq!(names(&bridge.take_delivered()), vec!["no-update-available"]);
}

#[test]
fn available_event_carries_the_found_release() {
    let mut t = UpdateTracker::new();
    let mut bridge = EventBridge::new(true);
    t.begin_check().unwrap();
    t.record_check_result(Ok(Some(release("3.1.0", "3.0.0", Some(42)))), &mut bridge)
        .unwrap();
    let events = bridge.take_delivered();
    assert_eq!(events.len(), 1);
    match &events[0] {
        UpdateEvent::UpdateAvailable(m) => {
            assert_eq!(m.version, "3.1.0");
            assert_eq!(m.current_version, "3.0.0");
            assert_eq!(m.body.as_deref(), Some("Bug fixes"));
            assert_eq!(m.date.as_deref(), Some("2024-05-01"));
            assert_eq!(m.download_size, Some(42));
        },
        _ => panic!("expected update-available"),
    }
}

#[test]
fn progress_never_goes_back_and_is_clamped() {
    let mut t = UpdateTracker::new();
    let mut bridge = EventBridge::new(true);
    t.begin_check().unwrap();
    t.record_check_result(Ok(Some(release("2.0.0", "1.0.0", None))), &mut bridge).unwrap();
    t.begin_download(&mut bridge).unwrap();
    assert_eq!(t.record_progress(4000, &mut bridge), Ok(4000));
    assert_eq!(t.record_progress(1000, &mut bridge), Ok(4000));
    assert_eq!(t.record_progress(25000, &mut bridge), Ok(FULL_PROGRESS));
    assert_eq!(t.record_progress(0, &mut bridge), Ok(FULL_PROGRESS));
}

#[test]
fn progress_out_of_download_is_refused() {
    let mut t = UpdateTracker::new();
    let mut bridge = EventBridge::new(true);
    assert_eq!(t.record_progress(10, &mut bridge), Err(InvalidTransition));
    assert_eq!(t.complete_download(&mut bridge), Err(InvalidTransition));
    assert_eq!(t.fail_download(InstallError::Install, &mut bridge), Err(InvalidTransition));
    assert!(t.begin_download(&mut bridge).is_err());
    assert!(t.record_check_result(Ok(None), &mut bridge).is_err());
    assert!(bridge.take_delivered().is_empty());
}

#[test]
fn check_errors_fail_the_run_with_their_kind() {
    let cases = [
        (CheckError::Network, "Network"),
        (CheckError::Parse, "Parse"),
        (CheckError::SourceUnavailable, "SourceUnavailable"),
    ];
    for (e, kind) in cases {
        let mut m = UpdateManager::new();
        let mut bridge = EventBridge::new(true);
        m.start_check().unwrap();
        let reply = m.check_for_updates(Err(e), &mut bridge);
        assert!(reply.is_err());
        assert!(matches!(m.current(), LifecycleState::Failed(FailureKind::Check(_))));
        let events = bridge.take_delivered();
        match &events[..] {
            [UpdateEvent::Failed(k)] => assert_eq!(k.kind_name(), kind),
            _ => panic!("expected one failure event"),
        }
    }
}

#[test]
fn install_errors_have_their_kind_names() {
    assert_eq!(FailureKind::Install(InstallError::Corrupt).kind_name(), "Corrupt");
    assert_eq!(FailureKind::Install(InstallError::Install).kind_name(), "Install");
    assert_eq!(FailureKind::Install(InstallError::Cancelled).kind_name(), "Cancelled");
}

#[test]
fn install_without_update_is_an_error() {
    let mut m = UpdateManager::new();
    let mut bridge = EventBridge::new(true);
    m.start_check().unwrap();
    let r = m.install_update(Ok(None), &mut bridge);
    assert_eq!(r.err(), Some("No update available".to_string()));
    assert!(matches!(m.current(), LifecycleState::Idle));
}

#[test]
fn operations_out_of_sequence_are_refused() {
    let mut m = UpdateManager::new();
    let mut bridge = EventBridge::new(true);
    let r = m.check_for_updates(Ok(None), &mut bridge);
    assert_eq!(r.err(), Some("update operation out of sequence".to_string()));
    assert!(m.on_chunk(10, None, &mut bridge).is_err());
    assert!(m.finish_download(Ok(()), &mut bridge).is_err());
    assert!(matches!(m.current(), LifecycleState::Idle));
}

#[test]
fn cancelled_download_leaves_failed_cancelled() {
    let mut m = UpdateManager::new();
    let mut bridge = EventBridge::new(false);
    m.start_check().unwrap();
    m.install_update(Ok(Some(release("2.0.0", "1.5.0", None))), &mut bridge)
        .unwrap();
    assert!(m.cancel_download(&mut bridge).is_ok());
    assert!(matches!(
        m.current(),
        LifecycleState::Failed(FailureKind::Install(InstallError::Cancelled))
    ));
    assert!(m.acknowledge().is_ok());
    assert!(matches!(m.current(), LifecycleState::Idle));
}

#[test]
fn detached_bridge_drops_events() {
    let mut m = UpdateManager::new();
    let mut bridge = EventBridge::new(false);
    m.start_check().unwrap();
    m.check_for_updates(Ok(None), &mut bridge).unwrap();
    assert!(!bridge.attached());
    assert!(bridge.take_delivered().is_empty());
}

#[test]
fn unknown_size_reports_zero_until_installed() {
    let mut m = UpdateManager::new();
    let mut bridge = EventBridge::new(true);
    m.start_check().unwrap();
    m.install_update(Ok(Some(release("2.0.0", "1.5.0", None))), &mut bridge)
        .unwrap();
    assert_eq!(m.on_chunk(500, None, &mut bridge), Ok(0));
    assert_eq!(m.on_chunk(500, None, &mut bridge), Ok(0));
    m.finish_download(Ok(()), &mut bridge).unwrap();
    let events = bridge.take_delivered();
    assert_eq!(progress_ticks(&events), vec![0.0, 0.0]);
    let installed = names(&events).iter().filter(|s| s.as_str() == "update-installed").count();
    assert_eq!(installed, 1);
}

#[test]
fn stream_length_is_preferred_to_advertised_size() {
    let mut m = UpdateManager::new();
    let mut bridge = EventBridge::new(true);
    m.start_check().unwrap();
    m.install_update(Ok(Some(release("2.0.0", "1.5.0", Some(1000)))), &mut bridge)
        .unwrap();
    assert_eq!(m.on_chunk(100, Some(400), &mut bridge), Ok(2500));
    assert_eq!(m.on_chunk(100, None, &mut bridge), Ok(2500));
}

#[test]
fn percent_formula() {
    assert_eq!(progress_percent(1, Some(3)), 3333);
    assert_eq!(progress_percent(500, Some(1000)), 5000);
    assert_eq!(progress_percent(2000, Some(1000)), FULL_PROGRESS);
    assert_eq!(progress_percent(u64::MAX, Some(1)), FULL_PROGRESS);
    assert_eq!(progress_percent(10, Some(0)), 0);
    assert_eq!(progress_percent(10, None), 0);
    let mut acc = DownloadProgress::new(Some(200));
    assert_eq!(acc.add_chunk(50, None), 2500);
    assert_eq!(acc.bytes_downloaded, 50);
}

#[test]
fn startup_check_fires_once_after_delay() {
    let mut trigger = StartupCheck::new();
    assert!(!trigger.due(3));
    assert!(trigger.due(10));
    assert!(!trigger.due(11));
    assert!(!trigger.due(100));
}

#[test]
fn scheduled_check_is_skipped_when_busy() {
    let mut m = UpdateManager::new();
    let mut trigger = StartupCheck::new();
    m.start_check().unwrap();
    assert!(!m.start_scheduled_check(&mut trigger, 10));
    assert!(!m.start_scheduled_check(&mut trigger, 20));
    let mut bridge = EventBridge::new(true);
    m.check_for_updates(Ok(None), &mut bridge).unwrap();
    assert!(!m.start_scheduled_check(&mut trigger, 30));

    let mut fresh = UpdateManager::new();
    let mut trigger2 = StartupCheck::new();
    assert!(!fresh.start_scheduled_check(&mut trigger2, 5));
    assert!(fresh.start_scheduled_check(&mut trigger2, 10));
    assert!(matches!(fresh.current(), LifecycleState::Checking));
}

#[test]
fn event_names_match_the_ui_channel() {
    assert_eq!(UpdateEvent::NoUpdateAvailable.name(), "no-update-available");
    assert_eq!(UpdateEvent::DownloadStart.name(), "update-download-start");
    assert_eq!(UpdateEvent::DownloadProgress(5).name(), "update-download-progress");
    assert_eq!(UpdateEvent::Installed.name(), "update-installed");
}
