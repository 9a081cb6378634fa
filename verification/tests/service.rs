use vendor_oplus_charger::adapter::Adapter;
use vendor_oplus_charger::control::ControlAction;
use vendor_oplus_charger::info::ChargerInfo;
use vendor_oplus_charger::report::FractionalReadings;

/// A wired fast charger at 67 W.
fn charging() -> ChargerInfo {
    ChargerInfo {
        usb_online: 1,
        usb_real_type: "USB_PD".into(),
        quick_charge_type: "4".into(),
        pd_verified: 1,
        adapter_power_w: 67,
        fast_charge_type: "3".into(),
        charge_technology: "3".into(),
        battery_capacity: 55,
        battery_type: "Silicon".into(),
        fg_rm: 2500,
        fg_cycle: 12,
        gauge_type: "NVT".into(),
        ..Default::default()
    }
}

fn adapter_with(info: ChargerInfo) -> Adapter {
    let mut adapter = Adapter::new();
    adapter.publish(info, FractionalReadings::default(), 0, 0);
    adapter
}

#[test]
fn queries_answer_from_the_published_state() {
    let adapter = adapter_with(charging());
    let answers: Vec<(i32, &str)> = vec![
        (0, "3"),
        (1, "67"),
        (2, "67"),
        (3, "67"),
        (4, "67"),
        (5, "90"),
        (6, "1"),
        (14, "0"),
        (20, "12"),
        (21, "1"),
        (23, "NVT"),
        (24, "0"),
        (25, "0"),
        (31, "-1"),
        (33, "2500"),
        (37, "0,0,0"),
        (40, ""),
        (7, "0"),
        (99, "0"),
        (-1, "0"),
    ];
    for (flag, answer) in answers {
        assert_eq!(adapter.get_chg_config_value(flag, ""), answer, "{}", flag);
    }
    assert_eq!(adapter.get_chg_config_value(30, ""), "0");
    assert_eq!(
        adapter.get_chg_config_value(30, "Update"),
        adapter.charger_info_json
    );
}

#[test]
fn answers_are_zero_without_a_power_source() {
    let adapter = adapter_with(ChargerInfo {
        usb_online: 0,
        ..charging()
    });
    for flag in [1, 2, 3, 4, 6] {
        assert_eq!(adapter.get_chg_config_value(flag, ""), "0");
    }
    assert_eq!(adapter.get_batt_pps_chg_power(), 0);
    assert_eq!(adapter.get_wireless_adapter_power(), 0);
    assert_eq!(adapter.get_adapter_power_w(), 0);
}

#[test]
fn answers_are_zero_on_a_data_port() {
    let adapter = adapter_with(ChargerInfo {
        pc_port_online: 1,
        ..charging()
    });
    for flag in [1, 2, 3, 4, 6] {
        assert_eq!(adapter.get_chg_config_value(flag, ""), "0");
    }
}

#[test]
fn power_answers_depend_on_the_source() {
    let adapter = adapter_with(charging());
    assert_eq!(adapter.get_batt_pps_chg_power(), 67);
    assert_eq!(adapter.get_wireless_adapter_power(), 0);
    let adapter = adapter_with(ChargerInfo {
        wireless_online: 1,
        ..charging()
    });
    assert_eq!(adapter.get_wireless_adapter_power(), 67);
}

#[test]
fn requests_read_back() {
    let mut adapter = Adapter::new();
    assert_eq!(
        adapter.set_chg_config(5, "75"),
        vec![ControlAction::Apply(true)]
    );
    assert_eq!(adapter.get_chg_config_value(5, ""), "75");
    adapter.set_chg_config(14, "2++1+80");
    assert_eq!(adapter.get_chg_config_value(14, ""), "1");
    assert_eq!(adapter.get_chg_config_value(5, ""), "80");
    adapter.set_chg_config(25, "1+switch=1");
    assert_eq!(adapter.get_chg_config_value(24, ""), "1");
    assert_eq!(adapter.set_chg_config(36, "1,2,3"), vec![]);
    assert_eq!(adapter.get_chg_config_value(37, ""), "1,2,3");
    adapter.set_chg_config(19, "7");
    assert_eq!(adapter.anti_expansion_dis, "7");
    assert_eq!(adapter.set_chg_config(6, "9"), vec![]);
}

#[test]
fn other_settings_are_kept() {
    let mut adapter = Adapter::new();
    adapter.set_charger_cool_down("3");
    assert_eq!(adapter.cooldown, "3");
    adapter.set_smart_cool_down(2, -1, "com.example");
    assert_eq!(adapter.cooldown, "2,-1,com.example");
    adapter.set_usb_eye_diagram("1,1");
    assert_eq!(adapter.usb_eye_diagram, "1,1");
    adapter.set_battery_log_push("enabled");
    assert!(adapter.battery_log_enabled);
    adapter.set_battery_log_push("on");
    assert!(!adapter.battery_log_enabled);
    assert!(Adapter::set_bool_like("True"));
    assert!(!Adapter::set_bool_like(" 1"));
}

#[test]
fn gauge_information_falls_back_to_the_health_report() {
    let adapter = adapter_with(charging());
    assert_eq!(adapter.get_batt_gauge_info(), adapter.soh_debug_info);
    let adapter = adapter_with(ChargerInfo {
        gauge_info: "gauge".into(),
        ..charging()
    });
    assert_eq!(adapter.get_batt_gauge_info(), "gauge");
}

#[test]
fn getters_of_the_published_state() {
    let adapter = adapter_with(ChargerInfo {
        ac_online: 1,
        battery_temp: 305,
        battery_current_now: -1500,
        charge_full: 4_500_000,
        charge_full_design: 5_000_000,
        charge_counter: 2_400_000,
        fg_qmax: 4800,
        cycle_count: 9,
        ..charging()
    });
    assert_eq!(adapter.get_usb_online(), 1);
    assert_eq!(adapter.get_ac_online(), 1);
    assert_eq!(adapter.get_wireless_online(), 0);
    assert_eq!(adapter.get_pc_port_online(), 0);
    assert_eq!(adapter.get_battery_temp(), 305);
    assert_eq!(adapter.get_battery_current_now(), -1500);
    assert_eq!(adapter.get_average_current(), 1500);
    assert_eq!(adapter.get_battery_rm(), 2500);
    assert_eq!(adapter.get_battery_fcc(), 4500);
    assert_eq!(adapter.get_battery_cc(), 2400);
    assert_eq!(adapter.get_battery_design_capacity(), 5000);
    assert_eq!(adapter.get_battery_qmax(), 4800);
    assert_eq!(adapter.get_battery_type(), "Silicon");
    assert_eq!(adapter.get_battery_gauge_type(), "NVT");
    assert!(adapter.is_silicon_battery_now());
    assert_eq!(adapter.get_battery_cycle_count(), 12);
    assert_eq!(adapter.get_stable_adapter_power_w(), 67);
    assert_eq!(adapter.get_fast_charge_snapshot().fast_type, 3);
    assert_eq!(adapter.battery_auth_status, "1");
    assert_eq!(adapter.battery_type_cache, "Silicon");
    assert_eq!(adapter.get_battery_authenticate(), 1);
    assert_eq!(adapter.get_battery_short_status(), 1);
    assert_eq!(adapter.get_battery_short_ic_otp_status(), 1);
    assert_eq!(adapter.get_battery_short_feature(), 0);
}

#[test]
fn state_of_health_prefers_the_gauge() {
    let mut adapter = Adapter::new();
    let fractions = FractionalReadings {
        soh_ratio_percent: 90,
        ..FractionalReadings::default()
    };
    let info = ChargerInfo {
        charge_full: 4_500_000,
        charge_full_design: 5_000_000,
        ..Default::default()
    };
    adapter.publish(info, fractions, 0, 0);
    assert_eq!(adapter.get_battery_soh(), 90);
    let info = ChargerInfo {
        fg_soh: 97,
        ..Default::default()
    };
    assert_eq!(Adapter::best_soh(&info, 90), 97);
    let info = ChargerInfo {
        fg_soh: 101,
        ..Default::default()
    };
    assert_eq!(Adapter::best_soh(&info, 90), 0);
}

#[test]
fn decimal_report_moves_on_while_charging() {
    let mut adapter = Adapter::new();
    assert_eq!(adapter.get_decimal_soc(), "0,0");
    adapter.publish(charging(), FractionalReadings::default(), 5542, 8);
    assert_eq!(adapter.get_decimal_soc(), "5542,5544");
    assert_eq!(adapter.get_decimal_soc(), "5544,5546");
    let full = ChargerInfo {
        battery_capacity: 100,
        ..charging()
    };
    adapter.publish(full, FractionalReadings::default(), 0, 0);
    assert_eq!(adapter.get_decimal_soc(), "10000,10000");
}

#[test]
fn new_adapter_has_empty_reports() {
    let adapter = Adapter::new();
    assert_eq!(adapter.battery_balance_info, "0,0,0,0,0,0,0,0");
    assert_eq!(adapter.reverse_chg_info, "0,0,0");
    assert_eq!(adapter.usb_eye_diagram, "0,0,0,0,0,0,0,0,0,0");
    assert_eq!(adapter.quick_mode_gain, "0,0");
    assert_eq!(adapter.battery_type_cache, "unknown");
    assert_eq!(adapter.get_usb_status(), "0,0,0,0,0,0");
    assert_eq!(adapter.bcc_anode_type, "0");
    assert_eq!(adapter.eis_switch_status, "0");
    assert_eq!(adapter.sili_ic_alg_cfg, "0");
}

#[test]
fn interface_version() {
    assert_eq!(Adapter::new().get_interface_version(), 11);
}
