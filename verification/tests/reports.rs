use vendor_oplus_charger::adapter::Adapter;
use vendor_oplus_charger::info::ChargerInfo;
use vendor_oplus_charger::report::FractionalReadings;

fn info() -> ChargerInfo {
    ChargerInfo {
        usb_online: 1,
        usb_type: "USB_PD".into(),
        usb_real_type: "USB_PD".into(),
        battery_status: "Charging".into(),
        battery_health: "Good".into(),
        battery_capacity: 57,
        battery_temp: -5,
        battery_current_now: -1_234_567,
        battery_voltage_now: 4_123_456,
        battery_charge_type: "Fast".into(),
        battery_technology: "Li-ion".into(),
        charge_full: 4_500_000,
        charge_full_design: 5_000_000,
        charge_counter: 2_565_000,
        fg_soh: 98,
        fg_rm: 2565,
        fg_qmax: 4700,
        fg_vendor: "NVT".into(),
        gauge_type: "NVT".into(),
        cell1_vol: 4100,
        cell2_vol: 4125,
        cell1_rascale: 3,
        fg_avg_current: -900,
        fg_ai: 2,
        fast_charge_type: "3".into(),
        charge_technology: "3".into(),
        quick_charge_type: "4".into(),
        adapter_power_w: 67,
        input_current_max: 3_000_000,
        remaining_time: 1800,
        moisture_detected: true,
        fg_cycle: 12,
        ..Default::default()
    }
}

fn fractions() -> FractionalReadings {
    FractionalReadings {
        soh_ratio_percent: 90,
        current_ma: format!("{:.1}", -1_234_567_f64 / 1000.0),
        voltage_v: format!("{:.3}", 4_123_456_f64 / 1_000_000.0),
    }
}

#[test]
fn charger_report_lists_every_field() {
    assert_eq!(
        Adapter::build_charger_info_json(&info(), &fractions()),
        "usb_online=1;usb_type=USB_PD;usb_real_type=USB_PD;ac_online=0;pc_port=0;\
batt_status=Charging;batt_health=Good;capacity=57;temp=-0.5;current=-1234.6;voltage=4.123;\
charge_type=Fast;technology=Li-ion;battery_type=Li-ion;soh=98;fast_chg_type=3;charge_tech=3;\
wireless=0;wireless_type=;input_current=3000000;charge_full=4500;fcc=4500;rm=2565;\
design_capacity=5000;qmax=4700;adapter_power=67;cp_online=0;cp_iin_m=0;cp_iin_s=0;\
pd_verified=0;quick_charge_type=4;die_temp=0;typec_mode=;cc_orientation=0;\
remaining_time=1800;smart_chg=0;night_chg=0;sport=0;input_suspend=0;moisture=1;\
cell1_v=4100;cell2_v=4125;fg_qmax=4700;fg_ai=2;fg_avg_cur=-900;fg_vendor=NVT;authentic=1;\
max_life_t=0;max_life_v=0;board_temp=0;flash=0;hifi=0;fake_soc=0;fake_soh=0"
    );
}

#[test]
fn temperature_has_one_decimal() {
    for temp in [0, 1, 9, 10, 305, -1, -9, -10, -305, i32::MAX, i32::MIN] {
        let info = ChargerInfo {
            battery_temp: temp,
            ..Default::default()
        };
        let report = Adapter::build_charger_info_json(&info, &FractionalReadings::default());
        let field = format!(";temp={:.1};", temp as f64 / 10.0);
        assert!(report.contains(&field), "{} in {}", field, report);
    }
}

#[test]
fn unscanned_fractions_are_zeros() {
    let zero = FractionalReadings::default();
    assert_eq!(zero.soh_ratio_percent, 0);
    assert_eq!(zero.current_ma, format!("{:.1}", 0_f64));
    assert_eq!(zero.voltage_v, format!("{:.3}", 0_f64));
}

#[test]
fn health_report_lists_every_field() {
    assert_eq!(
        Adapter::build_soh_debug_info(&info(), &fractions()),
        "soh=98;charge_full=4500;charge_full_design=5000;charge_counter=2565;fcc=4500;rm=2565;\
design_capacity=5000;qmax=4700;cycle=12;battery_type=Li-ion;gauge_type=NVT;capacity=57;\
temp=-5;status=Charging;fg_soh=98;fg_fcc=0;fg_rm=2565;fg_rsoc=0;fg_cycle=12;fg_ai=2;\
fg_qmax=4700;fg_vendor=NVT;gauge_info=;die_temp=0;remaining_time=1800;max_life_temp=0;\
max_life_vol=0;over_vol_dur=0"
    );
    let unknown = Adapter::build_soh_debug_info(&ChargerInfo::default(), &fractions());
    assert!(unknown.contains(";battery_type=unknown;gauge_type=unknown;"));
}

#[test]
fn balance_report_lists_the_cells() {
    assert_eq!(
        Adapter::build_balance_info(&info()),
        "4100,4125,25,3,-900,4700,2,1"
    );
    let extreme = ChargerInfo {
        cell1_vol: i32::MIN,
        cell2_vol: i32::MAX,
        ..Default::default()
    };
    assert_eq!(
        Adapter::build_balance_info(&extreme),
        "-2147483648,2147483647,2147483647,0,0,0,0,0"
    );
}

#[test]
fn usb_report_has_a_code_for_the_type() {
    let codes = vec![
        ("USB", "1"),
        ("SDP", "1"),
        ("USB_CDP", "2"),
        ("CDP", "2"),
        ("USB_DCP", "3"),
        ("DCP", "3"),
        ("USB_HVDCP", "4"),
        ("HVDCP", "4"),
        ("USB_PD", "5"),
        ("PD", "5"),
        ("PD_ACTIVE", "5"),
        ("USB_HVDCP_3", "6"),
        ("HVDCP_3", "6"),
        ("USB_PD_PPS", "5"),
        ("hvdcp_3p5", "4"),
        ("My_DCP", "3"),
        ("my cdp", "2"),
        ("FLOAT", "0"),
        ("", "0"),
    ];
    for (usb_type, code) in codes {
        assert_eq!(
            Adapter::usb_type_code_by(usb_type, &usb_type.to_lowercase()),
            code
        );
        let with_type = ChargerInfo {
            usb_type: usb_type.into(),
            usb_real_type: String::new(),
            ..info()
        };
        assert_eq!(
            Adapter::build_usb_status(&with_type),
            format!("1,{},3000000,4123456,-1234567,-5", code)
        );
    }
    assert_eq!(
        Adapter::build_usb_status(&ChargerInfo::default()),
        "0,0,0,0,0,0"
    );
}

#[test]
fn battery_report_shows_charging_while_held_back() {
    let info = info();
    let snapshot = Adapter::fast_charge_snapshot_from_info(&info);
    assert_eq!(
        Adapter::build_battery_status(&info, &snapshot, false),
        "Charging,57,4123456,-1234567,-5,Good,Li-ion,Li-ion,Fast,4500,5000,2565,2565,4700,3,\
3000000,1"
    );
    let not_charging = ChargerInfo {
        battery_status: "Not charging".into(),
        ..info
    };
    assert!(Adapter::build_battery_status(&not_charging, &snapshot, true).starts_with("Charging,"));
    assert!(
        Adapter::build_battery_status(&not_charging, &snapshot, false)
            .starts_with("Not charging,")
    );
}

#[test]
fn battery_report_shows_no_charging_without_a_power_source() {
    let stale = ChargerInfo {
        usb_online: 0,
        battery_status: "CHARGING".into(),
        ..info()
    };
    let snapshot = Adapter::fast_charge_snapshot_from_info(&stale);
    assert!(Adapter::build_battery_status(&stale, &snapshot, true).starts_with("Discharging,"));
    let full = ChargerInfo {
        battery_status: "Full".into(),
        ..stale
    };
    assert!(Adapter::build_battery_status(&full, &snapshot, true).starts_with("Full,"));
}
