use vendor_oplus_charger::adapter::Adapter;
use vendor_oplus_charger::classify::FastChargeInputs;
use vendor_oplus_charger::decimal_soc::DecimalSocState;
use vendor_oplus_charger::info::{ChargeState, ChargerInfo};
use vendor_oplus_charger::recheck::RecheckStep;
use vendor_oplus_charger::snapshot::{is_data_port_usb_type, FastChargeSnapshot};
use vendor_oplus_charger::units::{
    abs_i32_to_i64, clamp_i64_to_i32, clamp_u64_to_i32, normalize_battery_capacity,
    normalize_capacity_mah,
};

fn with_usb_type(usb_type: &str, adapter_power_w: i32) -> FastChargeInputs<'_> {
    FastChargeInputs {
        quick_charge_type: "",
        fastchg_mode: 0,
        sport_mode: 0,
        pd_verified: 0,
        cp_online: 0,
        usb_type,
        adapter_power_w,
        online: true,
        usb_online: 0,
        pc_port_online: 0,
    }
}

#[test]
fn clamping() {
    assert_eq!(clamp_i64_to_i32(i64::MAX), i32::MAX);
    assert_eq!(clamp_i64_to_i32(i64::MIN), i32::MIN);
    assert_eq!(clamp_i64_to_i32(-7), -7);
    assert_eq!(clamp_u64_to_i32(u64::MAX), i32::MAX);
    assert_eq!(clamp_u64_to_i32(7), 7);
    assert_eq!(abs_i32_to_i64(i32::MIN), 2_147_483_648);
}

#[test]
fn capacities() {
    assert_eq!(normalize_capacity_mah(-1), 0);
    assert_eq!(normalize_capacity_mah(100_000), 100_000);
    assert_eq!(normalize_capacity_mah(100_001), 100);
    assert_eq!(normalize_capacity_mah(4_500_999), 4500);
    assert_eq!(normalize_battery_capacity(-3), 0);
    assert_eq!(normalize_battery_capacity(101), 1);
    assert_eq!(normalize_battery_capacity(i32::MAX), 100);
}

#[test]
fn powers() {
    assert_eq!(Adapter::normalize_power_value(33), 33);
    assert_eq!(Adapter::normalize_power_value(500), 500);
    assert_eq!(Adapter::normalize_power_value(33_000), 33);
    assert_eq!(Adapter::normalize_power_value(33_000_000), 33);
    assert_eq!(Adapter::power_watts(9_000_000, 3_000_000), 27);
    assert_eq!(Adapter::power_watts(9_000_000, 3_000), 27);
    assert_eq!(Adapter::power_watts(9_000, 3_000), 27);
    assert_eq!(Adapter::power_watts(9_000, 3_000_000), 27);
    assert_eq!(Adapter::power_watts(100_000, 100_000), 10_000);
    assert_eq!(Adapter::power_watts(0, 3_000), 0);
    assert_eq!(Adapter::power_watts(9_000, -1), 0);
}

#[test]
fn power_sources_rank() {
    let mut info = ChargerInfo {
        usb_voltage_now: 5_000_000,
        input_current_max: 2_000_000,
        ..Default::default()
    };
    assert_eq!(Adapter::estimate_power(&info, 0, 0), 10);
    info.input_current_settled = 1_000_000;
    assert_eq!(Adapter::estimate_power(&info, 0, 0), 5);
    info.input_voltage_settled = 9_000_000;
    assert_eq!(Adapter::estimate_power(&info, 0, 0), 9);
    info.input_current_max = 3_000_000;
    assert_eq!(Adapter::estimate_power(&info, 0, 0), 9);
    info.cp_master_iin = 1_500_000;
    info.cp_slave_iin = 1_500_000;
    assert_eq!(Adapter::estimate_power(&info, 0, 0), 15);
    info.cp_bus_voltage = 10_000_000;
    info.cp_bus_current = 3_000_000;
    assert_eq!(Adapter::estimate_power(&info, 0, 0), 30);
    assert_eq!(Adapter::estimate_power(&info, 0, 45_000), 45);
    assert_eq!(Adapter::estimate_power(&info, 67, 45_000), 67);
    let idle = ChargerInfo {
        battery_voltage_now: 4_000_000,
        battery_current_now: -500_000,
        ..Default::default()
    };
    assert_eq!(Adapter::estimate_power(&idle, 0, 0), 2);
}

#[test]
fn power_in_milli_units_is_in_watts() {
    let info = ChargerInfo {
        cp_bus_voltage: 9_000,
        cp_bus_current: 3_000,
        ..Default::default()
    };
    assert_eq!(Adapter::estimate_power(&info, 0, 0), 27);
    for (millivolts, milliamperes) in [(5_000, 900), (9_000, 3_000), (20_123, 6_789)] {
        let watts = Adapter::power_watts(millivolts, milliamperes);
        assert_eq!(Adapter::power_watts(millivolts * 1_000, milliamperes), watts);
        assert_eq!(Adapter::power_watts(millivolts, milliamperes * 1_000), watts);
        assert_eq!(
            Adapter::power_watts(millivolts * 1_000, milliamperes * 1_000),
            watts
        );
    }
}

#[test]
fn state_of_health_stays_in_percent() {
    let info = ChargerInfo {
        charge_full: 4_500_000,
        charge_full_design: 5_000_000,
        ..Default::default()
    };
    assert_eq!(Adapter::best_soh(&info, 90), 90);
    assert_eq!(Adapter::best_soh(&info, 500), 100);
    assert_eq!(Adapter::best_soh(&info, -7), 0);
}

#[test]
fn remaining_time() {
    let info = ChargerInfo {
        usb_online: 1,
        battery_capacity: 50,
        charge_full: 4_000_000,
        battery_current_now: 1_000,
        ..Default::default()
    };
    assert_eq!(Adapter::estimate_remaining_time_seconds(&info), 7200);
    let full = ChargerInfo {
        battery_status: "FULL".into(),
        ..info.clone()
    };
    assert_eq!(Adapter::estimate_remaining_time_seconds(&full), 0);
    let offline = ChargerInfo {
        usb_online: 0,
        ..info.clone()
    };
    assert_eq!(Adapter::estimate_remaining_time_seconds(&offline), 0);
    let still = ChargerInfo {
        battery_current_now: 0,
        ..info.clone()
    };
    assert_eq!(Adapter::estimate_remaining_time_seconds(&still), 0);
    let by_node = ChargerInfo {
        remaining_time: 86_400,
        ..info
    };
    assert_eq!(Adapter::estimate_remaining_time_seconds(&by_node), 86_400);
}

#[test]
fn charge_states() {
    let states = vec![
        (31, ChargeState::SuperCharging),
        (30, ChargeState::FlashCharging),
        (20, ChargeState::FastCharging),
        (10, ChargeState::NormalCharging),
        (3, ChargeState::SlowCharging),
    ];
    for (adapter_power_w, state) in states {
        let info = ChargerInfo {
            ac_online: 1,
            adapter_power_w,
            ..Default::default()
        };
        assert_eq!(Adapter::classify_charge_state(&info), state);
    }
    assert_eq!(
        Adapter::classify_charge_state(&ChargerInfo::default()),
        ChargeState::Disconnected
    );
    assert_eq!(ChargerInfo::default().charge_state, ChargeState::Unknown);
}

#[test]
fn fast_types_by_usb_type_and_power() {
    let types = vec![
        ("USB_PD", 0, 3),
        ("pps", 0, 3),
        ("QC3", 0, 2),
        ("USB_HVDCP", 0, 2),
        ("quick", 0, 2),
        ("USB_DCP", 0, 1),
        ("USB_SDP", 67, 0),
        ("cdp", 67, 0),
        ("FLOAT", 21, 3),
        ("FLOAT", 20, 2),
        ("FLOAT", 10, 1),
        ("FLOAT", 0, 1),
    ];
    for (usb_type, power, fast_type) in types {
        assert_eq!(
            Adapter::classify_fast_charge_values(with_usb_type(usb_type, power)),
            fast_type,
            "{}",
            usb_type
        );
        assert_eq!(
            Adapter::classify_fast_charge_by(
                with_usb_type(usb_type, power),
                &usb_type.to_lowercase()
            ),
            fast_type
        );
    }
}

#[test]
fn fast_types_by_quick_charge_type() {
    let levels = vec![
        ("1", 1),
        (" 2\n", 2),
        ("3", 3),
        ("4", 3),
        ("SuperVOOC", 3),
        ("TURBO", 3),
        ("Flash", 2),
        ("FAST", 1),
        ("Normal", 0),
        ("super", 1),
        ("5", 1),
    ];
    for (quick_charge_type, fast_type) in levels {
        let inputs = FastChargeInputs {
            quick_charge_type,
            ..with_usb_type("", 0)
        };
        assert_eq!(
            Adapter::classify_fast_charge_values(inputs),
            fast_type,
            "{}",
            quick_charge_type
        );
    }
    assert_eq!(Adapter::classify_charge_technology_values("Flash", 0), 2);
    assert_eq!(Adapter::classify_charge_technology_values("Normal", 3), 3);
    let info = ChargerInfo {
        ac_online: 1,
        quick_charge_type: "Turbo".into(),
        fast_charge_type: " 1 ".into(),
        ..Default::default()
    };
    assert_eq!(Adapter::classify_fast_charge(&info), "3");
    assert_eq!(Adapter::classify_charge_technology(&info), "3");
}

#[test]
fn data_port_types() {
    for usb_type in ["USB", "sdp", " usb_sdp ", "CDP", "USB_CDP", "pc", "PC_PORT"] {
        assert!(is_data_port_usb_type(usb_type), "{}", usb_type);
    }
    for usb_type in ["", "USB_DCP", "PD", "USB PD", "PCPORT"] {
        assert!(!is_data_port_usb_type(usb_type), "{}", usb_type);
    }
}

#[test]
fn snapshot_answers() {
    let quick = FastChargeSnapshot {
        online: true,
        usb_online: 1,
        fast_type: 2,
        quick_charge_type: "4".into(),
        ..Default::default()
    };
    assert!(quick.is_svooc_active());
    assert!(quick.is_fast_charge());
    assert!(quick.should_show_power());
    for (adapter_power_w, svooc, fast) in [(20, true, true), (19, false, true), (9, false, false)] {
        let powered = FastChargeSnapshot {
            online: true,
            usb_online: 1,
            adapter_power_w,
            ..Default::default()
        };
        assert_eq!(powered.is_svooc_active(), svooc);
        assert_eq!(powered.is_fast_charge(), fast);
        assert!(!powered.should_show_power());
    }
    let pps = FastChargeSnapshot {
        online: true,
        usb_online: 1,
        usb_type: "USB_PD_PPS".into(),
        ..Default::default()
    };
    assert!(pps.is_pps_active());
    assert!(pps.is_pps_active_by("usb_pd_pps", ""));
    let slow = FastChargeSnapshot {
        online: true,
        usb_online: 1,
        usb_type: "USB_DCP".into(),
        ..Default::default()
    };
    assert!(!slow.is_pps_active());
    assert!(!slow.is_svooc_active());
}

#[test]
fn unread_probe_values_report_no_change() {
    let snapshot = FastChargeSnapshot::default();
    assert!(!Adapter::power_source_probe_values_changed(
        &snapshot, None, None, None, None, None, None
    ));
    assert!(Adapter::power_source_probe_values_changed(
        &snapshot,
        None,
        None,
        None,
        None,
        None,
        Some("PD")
    ));
}

#[test]
fn remaining_charge_falls_back() {
    let gauge = ChargerInfo {
        fg_fcc: 4000,
        fg_rsoc: 50,
        ..Default::default()
    };
    assert_eq!(Adapter::best_rm(&gauge), 2000);
    let hundredths = ChargerInfo {
        fg_fcc: 4000,
        fg_rsoc: 5000,
        ..Default::default()
    };
    assert_eq!(Adapter::best_rm(&hundredths), 2000);
    let by_percent = ChargerInfo {
        charge_full: 4_000_000,
        battery_capacity: 25,
        ..Default::default()
    };
    assert_eq!(Adapter::best_rm(&by_percent), 1_000_000);
    assert_eq!(Adapter::best_rm_mah(&by_percent), 1000);
    let negative = ChargerInfo {
        charge_full: -150,
        battery_capacity: 1,
        ..Default::default()
    };
    assert_eq!(Adapter::best_rm(&negative), -1);
}

#[test]
fn decimal_seeds_and_rates() {
    assert_eq!(Adapter::normalize_decimal_seed_offset(0, 55), None);
    assert_eq!(Adapter::normalize_decimal_seed_offset(55, 55), None);
    assert_eq!(Adapter::normalize_decimal_seed_offset(5542, 55), Some(42));
    assert_eq!(Adapter::normalize_decimal_seed_offset(5504, 55), None);
    assert_eq!(Adapter::normalize_decimal_seed_offset(554_200, 55), Some(42));
    assert_eq!(Adapter::normalize_decimal_rate(0), 1);
    assert_eq!(Adapter::normalize_decimal_rate(8), 2);
    assert_eq!(Adapter::normalize_decimal_rate(4000), 3);
    assert_eq!(Adapter::normalize_decimal_rate(10_001), 3);
    let mut state = DecimalSocState::default();
    let first = Adapter::next_synthetic_decimal_random(&mut state);
    let expected = 0x6d2b_79f5_u32
        .wrapping_mul(1_664_525)
        .wrapping_add(1_013_904_223);
    assert_eq!(first, expected);
    assert_eq!(
        Adapter::next_synthetic_decimal_random(&mut state),
        expected.wrapping_mul(1_664_525).wrapping_add(1_013_904_223)
    );
}

#[test]
fn decimal_report_stops_at_the_last_hundredth() {
    let mut state = DecimalSocState::default();
    let mut last = (0, 0);
    for _ in 0..200 {
        last = Adapter::synthetic_decimal_soc_pair(&mut state, 12, 0, 1);
    }
    assert_eq!(last, (1299, 1299));
    assert_eq!(
        Adapter::synthetic_decimal_soc_pair(&mut state, 150, 0, 1),
        (10000, 10000)
    );
    let (start, _) = Adapter::synthetic_decimal_soc_pair(&mut state, -4, 0, 1);
    assert!((5..=50).contains(&start));
}

#[test]
fn recheck_reads_a_missing_type() {
    let recheck = Adapter::stable_adapter_power_w_with(33, "  ");
    assert_eq!(recheck.step, RecheckStep::ReadType);
    let mut typed = recheck;
    typed.type_read("SUPERVOOC");
    assert_eq!(typed.step, RecheckStep::ReadPower(3));
    let mut other = recheck;
    other.type_read("");
    assert_eq!(other.step, RecheckStep::Done);
    assert!(Adapter::should_recheck_power(30));
    assert!(Adapter::should_recheck_power(35));
    assert!(!Adapter::should_recheck_power(29));
    assert!(!Adapter::should_recheck_power(36));
    assert!(Adapter::is_quick_charge_type_4(" 4 "));
    assert!(!Adapter::is_quick_charge_type_4("40"));
    assert_eq!(Adapter::direct_adapter_power_w(Some(67_000)), 67);
    assert_eq!(Adapter::direct_adapter_power_w(Some(-1)), 0);
    assert_eq!(Adapter::direct_adapter_power_w(None), 0);
}
