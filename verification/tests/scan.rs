use vendor_oplus_charger::adapter::Adapter;
use vendor_oplus_charger::info::{ChargeState, ChargerInfo};
use vendor_oplus_charger::nodes::{IntNode, IntQuery, TextNode, TextQuery};
use vendor_oplus_charger::recheck::POWER_RECHECK_DELAY_MS;
use vendor_oplus_charger::report::FractionalReadings;
use vendor_oplus_charger::scan::ScanRequest;
use vendor_oplus_charger::scan_laws::SCAN_REQUESTS;

const USB: &str = "/sys/class/power_supply/usb";
const BATTERY: &str = "/sys/class/power_supply/battery";
const QCOM: &str = "/sys/class/qcom-battery";

fn contents<'a>(nodes: &'a [(String, &'a str)], path: &str) -> Option<&'a str> {
    nodes.iter().find(|node| node.0 == path).map(|node| node.1)
}

fn int_at(nodes: &[(String, &str)], node: IntNode) -> Option<i32> {
    let mut query = IntQuery::new(node);
    while let Some(path) = query.next_path() {
        query.offer(contents(nodes, path));
    }
    query.value()
}

fn text_at(nodes: &[(String, &str)], node: TextNode) -> Option<String> {
    let mut query = TextQuery::new(node);
    while let Some(path) = query.next_path() {
        query.offer(contents(nodes, path));
    }
    query.value()
}

/// Runs a scan over nodes that hold still; gives its result, the requests made
/// and the waits.
fn scan_over(info: ChargerInfo, nodes: &[(String, &str)]) -> (ChargerInfo, usize, usize) {
    let mut scan = Adapter::poll_once(info);
    let mut requests = 0;
    let mut waits = 0;
    loop {
        match scan.request() {
            ScanRequest::CheckCancel => scan.check(false),
            ScanRequest::ReadInt(node) => scan.int_read(int_at(nodes, node)),
            ScanRequest::ReadText(node) => scan.text_read(text_at(nodes, node)),
            ScanRequest::Wait(ms) => {
                assert_eq!(ms, POWER_RECHECK_DELAY_MS);
                waits += 1;
                scan.waited();
            }
            ScanRequest::Finished(completed) => {
                assert!(completed);
                return (scan.into_info(), requests, waits);
            }
        }
        requests += 1;
    }
}

fn at<'a>(directory: &str, name: &str, value: &'a str) -> (String, &'a str) {
    (format!("{}/{}", directory, name), value)
}

/// A stream of numbers for answers that follow no rule.
fn next(state: &mut u32) -> u32 {
    *state = state.wrapping_mul(1_664_525).wrapping_add(1_013_904_223);
    *state >> 8
}

/// Runs a scan whose nodes change while it runs; gives its result, whether it was
/// completed, whether it was told to give up, and the requests made.
fn scan_over_noise(seed: u32) -> (ChargerInfo, bool, bool, usize) {
    let texts = ["", "USB", "USB_PD", "SDP", "4", "0", "Charging", "Super"];
    let mut state = seed;
    let mut told = false;
    let mut requests = 0;
    let mut scan = Adapter::poll_once(ChargerInfo {
        quick_charge_type: "4".into(),
        adapter_power_w: 67,
        cp_bus_voltage: 9_000_000,
        authentic: 0,
        ..Default::default()
    });
    loop {
        match scan.request() {
            ScanRequest::CheckCancel => {
                let cancel = next(&mut state) % 40 == 0;
                told = told || cancel;
                scan.check(cancel);
            }
            ScanRequest::ReadInt(_) => scan.int_read(match next(&mut state) % 8 {
                0 => None,
                1 | 2 => Some(0),
                3 => Some(33),
                4 => Some(-1),
                _ => Some((next(&mut state) % 20_000_000) as i32),
            }),
            ScanRequest::ReadText(_) => {
                let text = texts[(next(&mut state) % 8) as usize];
                scan.text_read(if text.is_empty() {
                    None
                } else {
                    Some(text.to_string())
                });
            }
            ScanRequest::Wait(_) => scan.waited(),
            ScanRequest::Finished(completed) => {
                return (scan.into_info(), completed, told, requests);
            }
        }
        requests += 1;
    }
}

#[test]
fn every_scan_ends_and_agrees() {
    let mut seen = [0; 4];
    for seed in 0..2_000 {
        let (info, completed, told, requests) = scan_over_noise(seed);
        assert!(requests <= SCAN_REQUESTS);
        assert_eq!(completed, !told);
        if !completed {
            seen[0] += 1;
            continue;
        }
        assert_eq!(info.authentic, 1);
        assert!(info.adapter_power_w >= 0);
        assert!(info.remaining_time >= 0);
        assert!((0..=100).contains(&info.battery_capacity));
        assert!(info.usb_real_type.is_empty() || info.usb_type == info.usb_real_type);
        assert!(info.charge_full_design != 0 || info.charge_full == 0);
        assert!(info.charge_counter != 0 || info.fg_rm == 0);
        assert_eq!(info.gauge_type, info.fg_vendor);
        let snapshot = Adapter::fast_charge_snapshot_from_info(&info);
        if !snapshot.online {
            seen[1] += 1;
            assert_eq!(info.charge_state, ChargeState::Disconnected);
            assert_eq!(info.cp_bus_voltage, 0);
            assert!(info.cp_status.is_empty());
            assert_eq!(info.sport_mode, 0);
        } else if snapshot.is_data_port() {
            seen[2] += 1;
            assert_eq!(info.charge_state, ChargeState::SlowCharging);
            assert_eq!(info.quick_charge_type, "0");
            assert_eq!(info.charge_technology, "0");
        } else {
            seen[3] += 1;
            continue;
        }
        assert_eq!(info.fast_charge_type, "0");
        assert_eq!(info.adapter_power_w, 0);
        let mut adapter = Adapter::new();
        adapter.publish(info, FractionalReadings::default(), 0, 0);
        for flag in [0, 1, 2, 3, 4, 6] {
            assert_eq!(adapter.get_chg_config_value(flag, ""), "0");
        }
    }
    assert!(seen.iter().all(|count| *count > 0), "{:?}", seen);
}

#[test]
fn scan_reads_the_nodes_and_classifies() {
    let nodes = vec![
        at(USB, "online", "1\n"),
        at(USB, "type", "USB\n"),
        at(QCOM, "real_type", "USB_PD\n"),
        at(USB, "voltage_now", "9000000"),
        at(BATTERY, "status", "Charging\n"),
        at(BATTERY, "capacity", "57\n"),
        at(BATTERY, "temp", "312\n"),
        at(BATTERY, "current_now", "-2000000\n"),
        at(QCOM, "quick_charge_type", "2\n"),
        at(QCOM, "power_max", "27\n"),
    ];
    let (info, requests, waits) = scan_over(ChargerInfo::default(), &nodes);
    assert_eq!(info.usb_online, 1);
    assert_eq!(info.usb_real_type, "USB_PD");
    assert_eq!(info.usb_type, "USB_PD");
    assert_eq!(info.battery_capacity, 57);
    assert_eq!(info.battery_temp, 312);
    assert_eq!(info.quick_charge_type, "2");
    assert_eq!(info.fast_charge_type, "2");
    assert_eq!(info.charge_technology, "2");
    assert_eq!(info.authentic, 1);
    assert_eq!(waits, 0);
    assert!(requests <= SCAN_REQUESTS);
}

#[test]
fn offline_scan_clears_the_session() {
    let known = ChargerInfo {
        usb_online: 1,
        usb_type: "USB_PD".into(),
        usb_real_type: "USB_PD".into(),
        quick_charge_type: "4".into(),
        pd_verified: 1,
        adapter_power_w: 67,
        fast_charge_type: "3".into(),
        charge_technology: "3".into(),
        ..Default::default()
    };
    let nodes = vec![
        at(USB, "online", "0\n"),
        at(QCOM, "quick_charge_type", "4\n"),
        at(QCOM, "real_type", "USB_PD\n"),
    ];
    let (info, _, _) = scan_over(known, &nodes);
    assert_eq!(info.fast_charge_type, "0");
    assert_eq!(info.charge_technology, "0");
    assert_eq!(info.adapter_power_w, 0);
    assert!(info.quick_charge_type.is_empty());
    assert!(info.usb_real_type.is_empty());
    assert_eq!(info.charge_state, ChargeState::Disconnected);
    let snapshot = Adapter::fast_charge_snapshot_from_info(&info);
    assert!(!snapshot.online);
    assert_eq!(snapshot.fast_type, 0);
    assert!(!snapshot.is_fast_charge());
}

#[test]
fn data_port_scan_shows_no_fast_charge() {
    let nodes = vec![
        at(USB, "online", "1\n"),
        at(QCOM, "real_type", "SDP\n"),
        at(QCOM, "quick_charge_type", "4\n"),
        at(QCOM, "power_max", "67\n"),
    ];
    let (info, _, _) = scan_over(ChargerInfo::default(), &nodes);
    assert_eq!(info.quick_charge_type, "0");
    assert_eq!(info.fast_charge_type, "0");
    assert_eq!(info.adapter_power_w, 0);
    let snapshot = Adapter::fast_charge_snapshot_from_info(&info);
    assert!(snapshot.is_data_port());
    assert!(!snapshot.should_show_power());
    assert!(!snapshot.is_fast_charge());
}

#[test]
fn failed_scan_keeps_live_values_and_zeroes_the_rest() {
    let known = ChargerInfo {
        usb_online: 1,
        battery_capacity: 42,
        battery_temp: 301,
        battery_status: "Charging".into(),
        fg_fcc: 4000,
        cycle_count: 12,
        gauge_info: "old".into(),
        ..Default::default()
    };
    let (info, _, _) = scan_over(known, &[]);
    assert_eq!(info.usb_online, 1);
    assert_eq!(info.battery_capacity, 42);
    assert_eq!(info.battery_temp, 301);
    assert_eq!(info.battery_status, "Charging");
    assert_eq!(info.fg_fcc, 0);
    assert_eq!(info.cycle_count, 0);
    assert!(info.gauge_info.is_empty());
}

#[test]
fn blank_texts_and_wide_integers() {
    let nodes = vec![
        at(USB, "online", "1"),
        at(BATTERY, "status", "  \n"),
        at(BATTERY, "current_now", "9000000000"),
        at(BATTERY, "voltage_now", "-9000000000"),
        at(BATTERY, "capacity", "8999"),
    ];
    let known = ChargerInfo {
        battery_status: "Full".into(),
        ..Default::default()
    };
    let (info, _, _) = scan_over(known, &nodes);
    assert_eq!(info.battery_status, "Full");
    assert_eq!(info.battery_current_now, i32::MAX);
    assert_eq!(info.battery_voltage_now, i32::MIN);
    assert_eq!(info.battery_capacity, 89);
}

#[test]
fn static_input_limit_is_asked_last() {
    let paths = IntNode::InputCurrentMax.paths();
    assert_eq!(
        paths.last().copied(),
        Some("/sys/class/qcom-battery/restrict_cur")
    );
    let mut nodes = vec![
        at(QCOM, "restrict_cur", "1000000"),
        at(USB, "current_max", "3000000"),
    ];
    assert_eq!(int_at(&nodes, IntNode::InputCurrentMax), Some(3_000_000));
    nodes.pop();
    assert_eq!(int_at(&nodes, IntNode::InputCurrentMax), Some(1_000_000));
}

#[test]
fn adapter_power_counts_only_where_positive() {
    let paths = IntNode::AdapterPower.paths();
    assert!(paths.len() >= 2);
    let nodes = vec![(paths[0].to_string(), "0"), (paths[1].to_string(), "45")];
    assert_eq!(int_at(&nodes, IntNode::AdapterPower), Some(45));
    assert_eq!(int_at(&nodes[..1], IntNode::AdapterPower), None);
}

#[test]
fn power_near_33w_is_rechecked_for_the_highest_type() {
    let power = IntNode::AdapterPower.paths()[0].to_string();
    let mut scan = Adapter::poll_once(ChargerInfo::default());
    let mut power_reads = 0;
    let mut waits = 0;
    let completed = loop {
        match scan.request() {
            ScanRequest::CheckCancel => scan.check(false),
            ScanRequest::ReadInt(IntNode::UsbOnline) => scan.int_read(Some(1)),
            ScanRequest::ReadInt(IntNode::AdapterPower) => {
                power_reads += 1;
                let watts = if power_reads == 3 { "67" } else { "33" };
                scan.int_read(int_at(&[(power.clone(), watts)], IntNode::AdapterPower));
            }
            ScanRequest::ReadInt(_) => scan.int_read(None),
            ScanRequest::ReadText(TextNode::QuickChargeType) => {
                scan.text_read(Some("4".to_string()))
            }
            ScanRequest::ReadText(_) => scan.text_read(None),
            ScanRequest::Wait(_) => {
                waits += 1;
                scan.waited();
            }
            ScanRequest::Finished(completed) => break completed,
        }
    };
    assert!(completed);
    assert_eq!(power_reads, 4);
    assert_eq!(waits, 3);
    let info = scan.into_info();
    assert_eq!(info.adapter_power_w, 67);
    assert_eq!(info.charge_state, ChargeState::SuperCharging);
    assert_eq!(info.fast_charge_type, "3");
}

#[test]
fn every_check_can_give_the_scan_up() {
    let mut given_up = 0;
    for cancel_at in 1.. {
        let mut scan = Adapter::poll_once(ChargerInfo {
            usb_online: 1,
            ..Default::default()
        });
        let mut checks = 0;
        let completed = loop {
            match scan.request() {
                ScanRequest::CheckCancel => {
                    checks += 1;
                    scan.check(checks == cancel_at);
                }
                ScanRequest::ReadInt(_) => scan.int_read(None),
                ScanRequest::ReadText(_) => scan.text_read(None),
                ScanRequest::Wait(_) => scan.waited(),
                ScanRequest::Finished(completed) => break completed,
            }
        };
        if completed {
            break;
        }
        given_up += 1;
    }
    // Nine before the power is looked at, one before and one after its recheck.
    assert_eq!(given_up, 11);
}

#[test]
fn published_data_port_scan_answers_zero() {
    let nodes = vec![
        at(USB, "online", "1\n"),
        at(QCOM, "real_type", "USB_CDP\n"),
        at(QCOM, "quick_charge_type", "4\n"),
        at(QCOM, "power_max", "67\n"),
        at(QCOM, "fastchg_mode", "1\n"),
    ];
    let (info, _, _) = scan_over(ChargerInfo::default(), &nodes);
    let mut adapter = Adapter::new();
    adapter.publish(info, FractionalReadings::default(), 0, 0);
    for flag in [0, 1, 2, 3, 4, 6] {
        assert_eq!(adapter.get_chg_config_value(flag, ""), "0");
    }
    assert_eq!(adapter.get_usb_online(), 1);
}

#[test]
fn first_readable_candidate_decides() {
    let paths = TextNode::UsbRealType.paths();
    let nodes = vec![
        (paths[0].to_string(), " \n"),
        (paths[1].to_string(), "USB_PD\n"),
        (paths[2].to_string(), "USB_DCP\n"),
    ];
    assert_eq!(
        text_at(&nodes, TextNode::UsbRealType),
        Some("USB_PD".to_string())
    );
    let paths = IntNode::InputCurrentMax.paths();
    let nodes = vec![
        (paths[1].to_string(), "0"),
        (paths[3].to_string(), "2000000"),
    ];
    assert_eq!(int_at(&nodes, IntNode::InputCurrentMax), Some(0));
    assert_eq!(int_at(&[], IntNode::InputCurrentMax), None);
}
