use vendor_oplus_charger::adapter::Adapter;
use vendor_oplus_charger::poll::{
    is_power_supply_uevent, uevent_reaction, PollAction, PollEvent, PollFlags, WakeCause, FULL_REFRESH_INTERVAL_MS,
    INITIAL_REFRESH_WAIT_MS, SCREEN_OFF_CHARGING_POLL_INTERVAL_MS,
    SCREEN_OFF_IDLE_POLL_INTERVAL_MS, SCREEN_ON_POLL_INTERVAL_MS, SCREEN_WAKE_SCAN_DEFER_MS,
    UeventAction, UeventOutcome,
};

#[test]
fn screen_change_defers_and_keeps_requests() {
    let mut flags = PollFlags::default();
    Adapter::request_refresh(&mut flags);
    Adapter::notify_screen_status(&mut flags, 1);
    assert!(flags.screen_on);
    assert_eq!(flags.wake(WakeCause::Woken, 0), PollAction::Defer);
    assert_eq!(flags.wake(WakeCause::Woken, 0), PollAction::Scan);
    assert_eq!(flags.wake(WakeCause::Woken, 0), PollAction::Sleep);
}

#[test]
fn unchanged_screen_defers_nothing() {
    let mut flags = PollFlags::default();
    Adapter::notify_screen_status(&mut flags, 0);
    assert!(!flags.screen_wake_pending);
    Adapter::notify_screen_status(&mut flags, 2);
    assert!(flags.screen_wake_pending);
    flags.wake(WakeCause::TimedOut, 0);
    Adapter::notify_screen_status(&mut flags, 1);
    assert!(!flags.screen_wake_pending);
}

#[test]
fn uevent_leads_to_a_probe() {
    let mut flags = PollFlags::default();
    Adapter::request_uevent_probe(&mut flags);
    assert_eq!(flags.wake(WakeCause::Woken, 0), PollAction::Probe);
    Adapter::request_uevent_probe(&mut flags);
    assert_eq!(
        flags.wake(WakeCause::Woken, FULL_REFRESH_INTERVAL_MS),
        PollAction::Scan
    );
}

#[test]
fn timeout_probes_and_scans_when_due() {
    let mut flags = PollFlags::default();
    assert_eq!(
        flags.wake(WakeCause::TimedOut, FULL_REFRESH_INTERVAL_MS - 1),
        PollAction::Probe
    );
    assert_eq!(
        flags.wake(WakeCause::TimedOut, FULL_REFRESH_INTERVAL_MS),
        PollAction::Scan
    );
    assert_eq!(flags.wake(WakeCause::Disconnected, 0), PollAction::Stop);
}

#[test]
fn result_of_a_scan_counts_only_with_a_quiet_screen() {
    let mut flags = PollFlags::default();
    assert!(flags.accept_scan(true));
    assert!(!flags.refresh_pending);
    assert!(!flags.accept_scan(false));
    assert!(flags.refresh_pending);
    let mut flags = PollFlags::default();
    Adapter::notify_screen_status(&mut flags, 1);
    assert!(!flags.accept_scan(true));
    assert!(flags.refresh_pending);
}

#[test]
fn intervals() {
    assert_eq!(SCREEN_ON_POLL_INTERVAL_MS, Adapter::poll_interval(true, true));
    assert!(SCREEN_ON_POLL_INTERVAL_MS < SCREEN_OFF_CHARGING_POLL_INTERVAL_MS);
    assert!(SCREEN_OFF_CHARGING_POLL_INTERVAL_MS < SCREEN_OFF_IDLE_POLL_INTERVAL_MS);
    assert_eq!(INITIAL_REFRESH_WAIT_MS, 250);
    assert_eq!(SCREEN_WAKE_SCAN_DEFER_MS, 750);
}

#[test]
fn uevent_field_is_matched_whole() {
    assert!(is_power_supply_uevent(b"SUBSYSTEM=power_supply"));
    assert!(is_power_supply_uevent(b"a\0SUBSYSTEM=power_supply"));
    assert!(is_power_supply_uevent(b"\0\0SUBSYSTEM=power_supply\0\0"));
    assert!(!is_power_supply_uevent(b"XSUBSYSTEM=power_supply\0"));
    assert!(!is_power_supply_uevent(b"SUBSYSTEM=power_suppl"));
    assert!(!is_power_supply_uevent(b""));
    assert!(!is_power_supply_uevent(b"\0"));
}

#[test]
fn refresh_goes_through_its_steps() {
    let mut flags = PollFlags::default();
    assert_eq!(flags.step(PollEvent::Probed(false)), PollAction::Sleep);
    assert_eq!(flags.step(PollEvent::Probed(true)), PollAction::Scan);
    assert_eq!(
        flags.step(PollEvent::Scanned(true)),
        PollAction::ReadDecimals
    );
    assert_eq!(flags.step(PollEvent::DecimalsRead), PollAction::Publish);
    assert_eq!(flags.step(PollEvent::Published), PollAction::Enforce);
    assert_eq!(flags.step(PollEvent::Enforced), PollAction::Refreshed);
    assert_eq!(flags, PollFlags::default());
}

#[test]
fn broken_off_refresh_is_repeated() {
    for event in [
        PollEvent::Scanned(true),
        PollEvent::DecimalsRead,
        PollEvent::Published,
    ] {
        let mut flags = PollFlags::default();
        Adapter::notify_screen_status(&mut flags, 1);
        let action = flags.step(event);
        assert_eq!(action, PollAction::Sleep);
        assert!(flags.wakes_again(action));
        assert_eq!(
            flags.step(PollEvent::Woke(WakeCause::Woken, 0)),
            PollAction::Defer
        );
        assert_eq!(
            flags.step(PollEvent::Woke(WakeCause::Woken, 0)),
            PollAction::Scan
        );
    }
    let mut flags = PollFlags::default();
    assert_eq!(flags.step(PollEvent::Scanned(false)), PollAction::Sleep);
    assert!(flags.refresh_pending);
}

#[test]
fn sleep_without_a_request_lasts() {
    let mut flags = PollFlags::default();
    let action = flags.step(PollEvent::Woke(WakeCause::Woken, 0));
    assert_eq!(action, PollAction::Sleep);
    assert!(!flags.wakes_again(action));
    Adapter::request_refresh(&mut flags);
    assert!(!flags.wakes_again(PollAction::Scan));
    assert!(flags.wakes_again(PollAction::Sleep));
}

#[test]
fn uevent_monitor_reactions() {
    let message = |power_supply, adapter_alive| UeventOutcome::Message {
        power_supply,
        adapter_alive,
    };
    assert_eq!(uevent_reaction(message(true, true)), UeventAction::Probe);
    assert_eq!(uevent_reaction(message(true, false)), UeventAction::Finish);
    assert_eq!(uevent_reaction(message(false, true)), UeventAction::Receive);
    assert_eq!(uevent_reaction(message(false, false)), UeventAction::Receive);
    assert_eq!(
        uevent_reaction(UeventOutcome::Interrupted),
        UeventAction::Receive
    );
    assert_eq!(uevent_reaction(UeventOutcome::Failed), UeventAction::Fail);
}
