use vendor_oplus_charger::adapter::Adapter;
use vendor_oplus_charger::control::{ControlAction, NodeWrite};
use vendor_oplus_charger::info::ChargerInfo;
use vendor_oplus_charger::nodes::WriteNode;
use vendor_oplus_charger::report::FractionalReadings;

fn write(node: WriteNode, value: &str) -> ControlAction {
    ControlAction::Write(NodeWrite {
        node,
        value: value.to_string(),
    })
}

fn publish_capacity(adapter: &mut Adapter, capacity: i32) {
    let info = ChargerInfo {
        usb_online: 1,
        battery_capacity: capacity,
        ..Default::default()
    };
    adapter.publish(info, FractionalReadings::default(), 0, 0);
}

#[test]
fn new_adapter_holds_nothing_back() {
    let mut adapter = Adapter::new();
    assert!(!adapter.charge_control_active);
    assert_eq!(adapter.get_charge_limit_state(), "0");
    assert_eq!(adapter.get_charge_limit_value(), "90");
    assert_eq!(adapter.get_bypass_charge_status(), "0");
    assert_eq!(adapter.charge_limit_target(), Some(90));
    assert_eq!(adapter.enforce_charge_control(), vec![]);
}

#[test]
fn limit_switch_writes_its_nodes_and_holds_at_the_limit() {
    let mut adapter = Adapter::new();
    publish_capacity(&mut adapter, 85);
    let actions = adapter.set_charge_limit_state("2++1+80");
    assert_eq!(
        actions,
        vec![
            write(WriteNode::ChargeStopThreshold, "80"),
            write(WriteNode::ChargeLimitState, "1"),
            ControlAction::Apply(true),
        ]
    );
    assert_eq!(adapter.get_charge_limit_state(), "1");
    assert_eq!(adapter.get_charge_limit_value(), "80");
    assert!(adapter.charge_limit_switch_enabled());
    assert!(adapter.charge_control_active);

    publish_capacity(&mut adapter, 80);
    assert_eq!(adapter.enforce_charge_control(), vec![]);
    assert!(adapter.charge_control_active);

    publish_capacity(&mut adapter, 79);
    assert_eq!(
        adapter.enforce_charge_control(),
        vec![ControlAction::Apply(false)]
    );
    assert!(!adapter.charge_control_active);
    assert_eq!(adapter.enforce_charge_control(), vec![]);
}

#[test]
fn limit_switch_without_a_limit_keeps_the_limit() {
    let mut adapter = Adapter::new();
    publish_capacity(&mut adapter, 50);
    let actions = adapter.set_charge_limit_state("1");
    assert_eq!(
        actions,
        vec![
            write(WriteNode::ChargeLimitState, "1"),
            ControlAction::Apply(false),
        ]
    );
    assert_eq!(adapter.get_charge_limit_value(), "90");
    // A switch value other than 1 is stored, and is off.
    adapter.set_charge_limit_state("3");
    assert_eq!(adapter.get_charge_limit_state(), "3");
    assert!(!adapter.charge_limit_switch_enabled());
    adapter.set_charge_limit_state("no number");
    assert_eq!(adapter.get_charge_limit_state(), "0");
}

#[test]
fn switching_the_limit_off_releases() {
    let mut adapter = Adapter::new();
    publish_capacity(&mut adapter, 95);
    adapter.set_charge_limit_state("2++1+80");
    assert!(adapter.charge_control_active);
    let actions = adapter.set_charge_limit_state("0");
    assert_eq!(
        actions,
        vec![
            write(WriteNode::ChargeLimitState, "0"),
            ControlAction::Apply(false),
        ]
    );
    assert!(!adapter.charge_limit_active);
}

#[test]
fn limit_request_with_a_stop_holds_at_once() {
    let mut adapter = Adapter::new();
    publish_capacity(&mut adapter, 10);
    let actions = adapter.set_charge_limit_value("4++1+80+1+80");
    assert_eq!(actions, vec![ControlAction::Apply(true)]);
    assert!(adapter.charge_limit_active);
    assert_eq!(adapter.get_charge_limit_value(), "80");
    // Without the switch, the next look releases.
    assert_eq!(
        adapter.enforce_charge_control(),
        vec![ControlAction::Apply(false)]
    );
}

#[test]
fn limit_request_without_a_stop_only_releases() {
    let mut adapter = Adapter::new();
    publish_capacity(&mut adapter, 85);
    adapter.set_charge_limit_state("2++1+90");
    assert!(!adapter.charge_limit_active);
    // The battery is above the new limit, yet only a look at it holds.
    let actions = adapter.set_charge_limit_value("4++0+80+0+80");
    assert_eq!(actions, vec![ControlAction::Apply(false)]);
    assert!(!adapter.charge_limit_active);
    assert_eq!(
        adapter.enforce_charge_control(),
        vec![ControlAction::Apply(true)]
    );
    // A limit above the battery releases.
    let actions = adapter.set_charge_limit_value("4++0+95+0+95");
    assert_eq!(actions, vec![ControlAction::Apply(false)]);
}

#[test]
fn limit_text_falls_back_to_the_request() {
    let mut adapter = Adapter::new();
    adapter.set_charge_limit_value("0 of 75");
    assert_eq!(adapter.get_charge_limit_value(), "0");
    adapter.set_charge_limit_value("none");
    assert_eq!(adapter.get_charge_limit_value(), "none");
    assert_eq!(adapter.charge_limit_target(), None);
}

#[test]
fn bypass_holds_back_and_writes_its_status_last() {
    let mut adapter = Adapter::new();
    let actions = adapter.set_bypass_charge_status("1+switch=1");
    assert_eq!(
        actions,
        vec![
            ControlAction::Apply(true),
            write(WriteNode::BypassStatus, "1"),
        ]
    );
    assert_eq!(adapter.get_bypass_charge_status(), "1");
    assert!(adapter.bypass_should_restrict());
    assert!(adapter.charge_control_active);
    assert_eq!(adapter.enforce_charge_control(), vec![]);
    let actions = adapter.set_bypass_charge_status("off");
    assert_eq!(
        actions,
        vec![
            ControlAction::Apply(false),
            write(WriteNode::BypassStatus, "0"),
        ]
    );
    assert!(!adapter.charge_control_active);
}

#[test]
fn control_is_applied_once() {
    let mut adapter = Adapter::new();
    publish_capacity(&mut adapter, 95);
    adapter.set_charge_limit_state("2++1+80");
    for _ in 0..3 {
        assert_eq!(adapter.enforce_charge_control(), vec![]);
    }
    // A request tells the nodes anew.
    assert_eq!(
        adapter.set_charge_limit_value("80"),
        vec![ControlAction::Apply(true)]
    );
}

#[test]
fn control_writes() {
    let writes: Vec<(WriteNode, String)> = Adapter::apply_charge_control_limit(true, 16)
        .into_iter()
        .map(|write| (write.node, write.value))
        .collect();
    assert_eq!(
        writes,
        vec![
            (WriteNode::ChargeControlLimit, "15".to_string()),
            (WriteNode::CoolMode, "1".to_string()),
            (WriteNode::CoolDown, "1".to_string()),
        ]
    );
    let values: Vec<String> = Adapter::apply_charge_control_limit(false, 16)
        .into_iter()
        .map(|write| write.value)
        .collect();
    assert_eq!(values, vec!["0", "0", "0"]);
    let fallback = Adapter::apply_charge_control_limit(true, 0);
    assert_eq!(fallback[0].value, "15");
}

#[test]
fn latch_settles_at_one_capacity() {
    for capacity in 0..=100 {
        for limit in [None, Some(0), Some(80), Some(100)] {
            for active in [false, true] {
                let next = Adapter::charge_limit_latch_state(active, true, capacity, limit);
                assert_eq!(
                    Adapter::charge_limit_latch_state(next, true, capacity, limit),
                    next
                );
                assert!(!Adapter::charge_limit_latch_state(
                    active, false, capacity, limit
                ));
            }
        }
    }
    assert!(!Adapter::charge_limit_latch_state(
        true,
        true,
        i32::MIN,
        Some(i32::MIN)
    ));
}

#[test]
fn payload_fallbacks() {
    assert_eq!(
        Adapter::parse_charge_limit_state_payload("1+85"),
        (1, Some(85))
    );
    assert_eq!(Adapter::parse_charge_limit_state_payload("on"), (0, None));
    assert_eq!(
        Adapter::parse_charge_limit_control_payload("1+80+0+75"),
        (1, Some(80), 0, Some(75))
    );
    assert_eq!(
        Adapter::parse_charge_limit_control_payload("stop 1"),
        (1, None, 0, None)
    );
    assert!(Adapter::parse_bypass_switch(" enabled "));
    assert!(!Adapter::parse_bypass_switch("2"));
}

#[test]
fn control_nodes_are_told_only_of_a_change() {
    let mut adapter = Adapter::new();
    assert_eq!(adapter.set_charge_control_active(false), vec![]);
    assert_eq!(
        adapter.set_charge_control_active(true),
        vec![ControlAction::Apply(true)]
    );
    assert!(adapter.charge_control_active);
    assert_eq!(adapter.charge_control_applied, Some(true));
    assert_eq!(adapter.set_charge_control_active(true), vec![]);
}
