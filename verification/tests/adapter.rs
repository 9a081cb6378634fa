use std::cell::Cell;

use vendor_oplus_charger::adapter::{Adapter, SHORT_CIRCUIT_HEALTHY};
use vendor_oplus_charger::charge_limit::restricted_charge_control_value;
use vendor_oplus_charger::classify::FastChargeInputs;
use vendor_oplus_charger::decimal_soc::DecimalSocState;
use vendor_oplus_charger::info::ChargerInfo;
use vendor_oplus_charger::nodes::{
    int_reading_or_zero, update_int, update_text, IntNode, IntQuery, TextNode, TextQuery,
};
use vendor_oplus_charger::poll::{
    is_power_supply_uevent, SCREEN_OFF_CHARGING_POLL_INTERVAL_MS,
    SCREEN_OFF_IDLE_POLL_INTERVAL_MS, SCREEN_ON_POLL_INTERVAL_MS,
};
use vendor_oplus_charger::recheck::RecheckStep;
use vendor_oplus_charger::scan::ScanRequest;
use vendor_oplus_charger::snapshot::FastChargeSnapshot;
use vendor_oplus_charger::units::normalize_battery_capacity;

fn fast_inputs<'a>(
    quick_charge_type: &'a str,
    pd_verified: i32,
    cp_online: i32,
    adapter_power_w: i32,
    online: bool,
) -> FastChargeInputs<'a> {
    FastChargeInputs {
        quick_charge_type,
        fastchg_mode: 0,
        sport_mode: 0,
        pd_verified,
        cp_online,
        usb_type: "",
        adapter_power_w,
        online,
        usb_online: online as i32,
        pc_port_online: 0,
    }
}

/// Runs a recheck, with the quick-charge type and the powers read during it.
fn rechecked(
    power_w: i32,
    quick_charge_type: &str,
    later_type: &str,
    mut read_power_w: impl FnMut() -> i32,
) -> i32 {
    let mut recheck = Adapter::stable_adapter_power_w_with(power_w, quick_charge_type);
    loop {
        match recheck.step {
            RecheckStep::ReadType => recheck.type_read(later_type),
            RecheckStep::ReadPower(_) => recheck.power_read(read_power_w()),
            RecheckStep::Done => return recheck.best_power_w,
        }
    }
}

/// What an integer query finds in the given contents, in order.
fn int_found(node: IntNode, contents: &[Option<&str>]) -> Option<i32> {
    let mut query = IntQuery::new(node);
    for text in contents {
        if query.next_path().is_none() {
            break;
        }
        query.offer(*text);
    }
    query.value()
}

/// What a text query finds in the given contents, in order.
fn text_found(node: TextNode, contents: &[Option<&str>]) -> Option<String> {
    let mut query = TextQuery::new(node);
    for text in contents {
        if query.next_path().is_none() {
            break;
        }
        query.offer(*text);
    }
    query.value()
}

#[test]
fn qct4_rechecks_33w_and_returns_highest_power() {
    let mut powers = [33, 33, 67, 65, 67].into_iter();
    let power = rechecked(33, "4", "4", || powers.next().unwrap_or(33));
    assert_eq!(power, 67);
}

#[test]
fn non_qct4_keeps_33w_without_power_reads() {
    let mut reads = 0;
    let power = rechecked(33, "3", "3", || {
        reads += 1;
        67
    });
    assert_eq!(power, 33);
    assert_eq!(reads, 0);
}

#[test]
fn non_33w_power_does_not_recheck() {
    let mut reads = 0;
    let power = rechecked(67, "4", "4", || {
        reads += 1;
        33
    });
    assert_eq!(power, 67);
    assert_eq!(reads, 0);
}

#[test]
fn direct_fast_classifier_detects_qct4_immediately() {
    assert_eq!(
        Adapter::classify_fast_charge_values(fast_inputs("4", 0, 0, 0, true)),
        3
    );
    assert_eq!(Adapter::classify_charge_technology_values("4", 3), 3);
    assert_eq!(
        Adapter::classify_fast_charge_values(fast_inputs("4", 1, 1, 67, false)),
        0
    );
}

#[test]
fn direct_fast_classifier_uses_pd_cp_and_power_fallbacks() {
    assert_eq!(
        Adapter::classify_fast_charge_values(fast_inputs("", 1, 0, 0, true)),
        3
    );
    assert_eq!(
        Adapter::classify_fast_charge_values(fast_inputs("", 0, 1, 0, true)),
        3
    );
    assert_eq!(
        Adapter::classify_fast_charge_values(fast_inputs("", 0, 0, 21, true)),
        3
    );
    assert_eq!(
        Adapter::classify_fast_charge_values(fast_inputs("0", 1, 0, 0, true)),
        3
    );
    assert_eq!(Adapter::classify_charge_technology_values("0", 3), 3);
}

#[test]
fn fast_snapshot_offline_suppresses_stale_fast_fields() {
    let snapshot = FastChargeSnapshot {
        online: false,
        usb_online: 0,
        ac_online: 0,
        wireless_online: 0,
        fast_type: 3,
        charge_tech: 3,
        quick_charge_type: "4".into(),
        pd_verified: 1,
        cp_online: 1,
        fastchg_mode: 1,
        sport_mode: 1,
        adapter_power_w: 67,
        usb_type: "USB_PD".into(),
        pc_port_online: 0,
    };

    assert!(!snapshot.is_fast_charge());
    assert!(!snapshot.is_svooc_active());
    assert!(!snapshot.is_pps_active());
}

#[test]
fn computer_usb_overrides_all_stale_fast_charge_evidence() {
    let inputs = FastChargeInputs {
        quick_charge_type: "4",
        fastchg_mode: 1,
        sport_mode: 1,
        pd_verified: 1,
        cp_online: 1,
        usb_type: "USB_SDP",
        adapter_power_w: 67,
        online: true,
        usb_online: 1,
        pc_port_online: 1,
    };
    assert_eq!(Adapter::classify_fast_charge_values(inputs), 0);

    let snapshot = FastChargeSnapshot {
        online: true,
        usb_online: 1,
        ac_online: 0,
        wireless_online: 0,
        fast_type: 3,
        charge_tech: 3,
        quick_charge_type: "4".into(),
        pd_verified: 1,
        cp_online: 1,
        fastchg_mode: 1,
        sport_mode: 1,
        adapter_power_w: 67,
        usb_type: "USB_SDP".into(),
        pc_port_online: 1,
    };
    assert!(!snapshot.is_fast_charge());
    assert!(!snapshot.is_svooc_active());
    assert!(!snapshot.is_pps_active());
    assert!(!snapshot.should_show_power());
}

#[test]
fn disconnect_clears_the_entire_fast_charge_session() {
    let mut info = ChargerInfo {
        usb_type: "USB_PD".into(),
        usb_real_type: "USB_PD".into(),
        quick_charge_type: "4".into(),
        pd_verified: 1,
        cp_online: 1,
        cp_status: "Charging".into(),
        cp_bus_voltage: 20_000_000,
        cp_bus_current: 3_000_000,
        cp_master_iin: 1_500_000,
        cp_slave_iin: 1_500_000,
        fastchg_mode: 1,
        sport_mode: 1,
        adapter_power_w: 67,
        fast_charge_type: "3".into(),
        charge_technology: "3".into(),
        ..Default::default()
    };
    Adapter::clear_fast_charge_session(&mut info);
    assert!(info.usb_type.is_empty());
    assert!(info.usb_real_type.is_empty());
    assert!(info.quick_charge_type.is_empty());
    assert_eq!(info.pd_verified, 0);
    assert_eq!(info.cp_online, 0);
    assert_eq!(info.adapter_power_w, 0);
    assert_eq!(info.fast_charge_type, "0");
    assert_eq!(info.charge_technology, "0");
}

#[test]
fn estimates_remaining_time_from_capacity_and_current() {
    let info = ChargerInfo {
        usb_online: 1,
        battery_status: "Charging".into(),
        battery_capacity: 50,
        fg_fcc: 4000,
        fg_rm: 2000,
        battery_current_now: -2_000_000,
        ..Default::default()
    };

    assert_eq!(Adapter::estimate_remaining_time_seconds(&info), 3600);
}

#[test]
fn normalizes_remaining_time_node_units() {
    let info = ChargerInfo {
        usb_online: 1,
        remaining_time: 3_600_000,
        ..Default::default()
    };

    assert_eq!(Adapter::estimate_remaining_time_seconds(&info), 3600);
}

#[test]
fn bypass_bool_parser_accepts_common_enabled_values() {
    assert!(Adapter::bool_like("1"));
    assert!(Adapter::bool_like("enable"));
    assert!(Adapter::bool_like("on"));
    assert!(!Adapter::bool_like("0"));
    assert!(!Adapter::bool_like("disable"));
}

#[test]
fn parses_coloros_bypass_switch_payload() {
    assert!(Adapter::parse_bypass_switch("1+switch=1"));
    assert!(!Adapter::parse_bypass_switch("1+switch=0"));
}

#[test]
fn parses_coloros_charge_limit_state_payload() {
    assert_eq!(
        Adapter::parse_charge_limit_state_payload("2++1+80"),
        (1, Some(80))
    );
    assert_eq!(
        Adapter::parse_charge_limit_state_payload("2++0+90"),
        (0, Some(90))
    );
}

#[test]
fn parses_coloros_charge_limit_control_payload() {
    assert_eq!(
        Adapter::parse_charge_limit_control_payload("4++1+80+1+80"),
        (1, Some(80), 1, Some(80))
    );
    assert_eq!(
        Adapter::parse_charge_limit_control_payload("4++0+80+0+80"),
        (0, Some(80), 0, Some(80))
    );
}

#[test]
fn charge_limit_latch_holds_at_boundary() {
    assert!(Adapter::charge_limit_latch_state(false, true, 91, Some(90)));
    assert!(Adapter::charge_limit_latch_state(false, true, 95, Some(95)));
    assert!(Adapter::charge_limit_latch_state(true, true, 95, Some(95)));
    assert!(Adapter::charge_limit_latch_state(true, true, 90, Some(90)));
    assert!(!Adapter::charge_limit_latch_state(true, true, 89, Some(90)));
    assert!(!Adapter::charge_limit_latch_state(
        true,
        false,
        95,
        Some(95)
    ));
}

#[test]
fn normalizes_capacity_without_decimal_pollution() {
    assert_eq!(normalize_battery_capacity(89), 89);
    assert_eq!(normalize_battery_capacity(8999), 89);
    assert_eq!(normalize_battery_capacity(10000), 100);
}

#[test]
fn integer_fallback_skips_unreadable_or_invalid_nodes() {
    let reading = int_found(
        IntNode::WirelessOnline,
        &[Some("not-a-number\n"), Some("67\n")],
    );
    assert_eq!(int_reading_or_zero(reading), 67);
    let reading = int_found(IntNode::WirelessOnline, &[None, Some("67\n")]);
    assert_eq!(int_reading_or_zero(reading), 67);
}

#[test]
fn transient_sysfs_failures_preserve_cached_values() {
    let mut integer = 42;
    update_int(&mut integer, int_found(IntNode::UsbOnline, &[None]));
    assert_eq!(integer, 42);

    update_int(&mut integer, int_found(IntNode::UsbOnline, &[Some("0\n")]));
    assert_eq!(integer, 0);

    let mut text = "cached".to_string();
    update_text(&mut text, text_found(TextNode::BatteryStatus, &[None]));
    assert_eq!(text, "cached");

    update_text(
        &mut text,
        text_found(TextNode::BatteryStatus, &[Some("Charging\n")]),
    );
    assert_eq!(text, "Charging");
}

#[test]
fn zero_percent_decimal_soc_stays_near_zero() {
    let mut state = DecimalSocState::default();
    let (start, end) = Adapter::synthetic_decimal_soc_pair(&mut state, 0, 0, 1);

    assert!((5..=50).contains(&start));
    assert!((5..=85).contains(&end));
}

#[test]
fn polling_slows_down_without_screen_or_charger() {
    assert_eq!(
        Adapter::poll_interval(true, false),
        SCREEN_ON_POLL_INTERVAL_MS
    );
    assert_eq!(
        Adapter::poll_interval(false, true),
        SCREEN_OFF_CHARGING_POLL_INTERVAL_MS
    );
    assert_eq!(
        Adapter::poll_interval(false, false),
        SCREEN_OFF_IDLE_POLL_INTERVAL_MS
    );
}

#[test]
fn lightweight_probe_only_escalates_on_power_source_changes() {
    let snapshot = FastChargeSnapshot {
        usb_online: 1,
        ac_online: 0,
        wireless_online: 0,
        pc_port_online: 0,
        quick_charge_type: "4".into(),
        usb_type: "USB_PD".into(),
        ..Default::default()
    };

    assert!(!Adapter::power_source_probe_values_changed(
        &snapshot,
        Some(1),
        Some(0),
        Some(0),
        Some(0),
        Some("4"),
        Some("USB_PD"),
    ));
    assert!(Adapter::power_source_probe_values_changed(
        &snapshot,
        Some(0),
        Some(0),
        Some(0),
        Some(0),
        Some("4"),
        Some("USB_PD"),
    ));
    assert!(Adapter::power_source_probe_values_changed(
        &snapshot,
        None,
        None,
        None,
        None,
        Some("0"),
        None,
    ));
}

#[test]
fn full_scan_honors_screen_transition_cancellation() {
    let checks = Cell::new(0);
    let should_cancel = || {
        let next = checks.get() + 1;
        checks.set(next);
        next >= 2
    };
    let mut scan = Adapter::poll_once(ChargerInfo::default());
    let completed = loop {
        match scan.request() {
            ScanRequest::CheckCancel => scan.check(should_cancel()),
            ScanRequest::ReadInt(_) => scan.int_read(None),
            ScanRequest::ReadText(_) => scan.text_read(None),
            ScanRequest::Wait(_) => scan.waited(),
            ScanRequest::Finished(completed) => break completed,
        }
    };

    assert!(!completed);
    assert!(checks.get() >= 2);
}

#[test]
fn unknown_xiaomi_metrics_are_not_fabricated() {
    let info = ChargerInfo::default();
    assert_eq!(info.battery_capacity, 0);
    assert_eq!(SHORT_CIRCUIT_HEALTHY, 1);
    assert_eq!(Adapter::best_soh(&info, 0), 0);
    assert_eq!(Adapter::best_fcc_mah(&info), 0);
    assert_eq!(info.authentic, 1);
}

#[test]
fn detects_only_power_supply_uevents() {
    assert!(is_power_supply_uevent(
        b"change@/devices/virtual/power_supply/battery\0ACTION=change\0SUBSYSTEM=power_supply\0"
    ));
    assert!(!is_power_supply_uevent(
        b"change@/devices/platform/display\0ACTION=change\0SUBSYSTEM=graphics\0"
    ));
    assert!(!is_power_supply_uevent(
        b"SUBSYSTEM=power_supply_extra\0"
    ));
}

#[test]
fn synthetic_decimal_pair_progresses_without_decimal_node() {
    let mut state = DecimalSocState::default();
    let (first_start, first_end) = Adapter::synthetic_decimal_soc_pair(&mut state, 89, 0, 1);
    let (second_start, second_end) = Adapter::synthetic_decimal_soc_pair(&mut state, 89, 0, 1);

    assert!((8905..=8950).contains(&first_start));
    assert!((8905..=8985).contains(&first_end));
    assert_ne!(first_end, first_start);
    assert_eq!(second_start, first_end);
    assert!((8905..=8985).contains(&second_end));
    assert_ne!(second_end, second_start);
}

#[test]
fn synthetic_decimal_pair_uses_node_seed_on_capacity_reset() {
    let mut state = DecimalSocState::default();
    let (first_start, first_end) = Adapter::synthetic_decimal_soc_pair(&mut state, 89, 8942, 1);
    let (second_start, second_end) =
        Adapter::synthetic_decimal_soc_pair(&mut state, 89, 8901, 1);

    assert_eq!(first_start, 8942);
    assert!((8905..=8985).contains(&first_end));
    assert_ne!(first_end, first_start);
    assert_eq!(second_start, first_end);
    assert!((8905..=8985).contains(&second_end));
    assert_ne!(second_end, second_start);
}

#[test]
fn synthetic_decimal_pair_does_not_regress_after_reaching_cap() {
    let mut state = DecimalSocState::default();
    let mut previous_end = 0;

    for _ in 0..40 {
        let pair = Adapter::synthetic_decimal_soc_pair(&mut state, 89, 8942, 1);
        assert!((8905..=8985).contains(&pair.0));
        assert!((8905..=8985).contains(&pair.1));
        assert_ne!(pair.1, pair.0);
        assert!(pair.1 >= previous_end);
        previous_end = pair.1;
    }
}

#[test]
fn synthetic_decimal_pair_does_not_regress_when_rate_increases() {
    let mut state = DecimalSocState::default();
    let (_, first_end) = Adapter::synthetic_decimal_soc_pair(&mut state, 89, 8980, 1);
    let (_, second_end) = Adapter::synthetic_decimal_soc_pair(&mut state, 89, 8980, 20);

    assert!(second_end >= first_end);
}

#[test]
fn synthetic_decimal_pair_continues_past_eighty_five_centi() {
    let mut state = DecimalSocState::default();
    let (_, end) = Adapter::synthetic_decimal_soc_pair(&mut state, 89, 8984, 20);

    assert!(end > 8985);
    assert!(end <= 8999);
}

#[test]
fn synthetic_decimal_pair_uses_rate_as_step() {
    let mut state = DecimalSocState::default();
    let (start, end) = Adapter::synthetic_decimal_soc_pair(&mut state, 89, 8942, 20);
    assert_eq!(start, 8942);
    assert_eq!(end, 8945);
}

#[test]
fn restricted_charge_control_uses_max_minus_one() {
    assert_eq!(restricted_charge_control_value(16), "15");
    assert_eq!(restricted_charge_control_value(2), "1");
    assert_eq!(restricted_charge_control_value(0), "15");
}
