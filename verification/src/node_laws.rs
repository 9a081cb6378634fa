//! What a whole scan shows of nodes that hold still: which metric comes from which
//! node, and what becomes of a metric without one.

use crate::classify::{estimated_power, estimates_are_not_negative};
use crate::info::ChargerInfoView;
use crate::nodes::{first_node_int, first_node_text, node_int, IntNode, TextNode};
use crate::scan::{classified, on_charger, scan_start};
use crate::scan_laws::{
    contents_at, read_info, run, stable_int, stable_power, stable_text, uncancelled_scan_completes,
    SCAN_REQUESTS,
};
use crate::text::{as_i64, trimmed};
use crate::units::watts_from_reading;
use vstd::prelude::*;

verus! {

/// The node at `path` holds the number `n`, with white space around it or without.
pub open spec fn holds(nodes: Map<Seq<char>, Seq<char>>, path: Seq<char>, n: i32) -> bool {
    nodes.dom().contains(path) && as_i64(trimmed(nodes[path])) == Some(n as i64)
}

/// The first of the nodes that is there holds the number `n`.
#[verifier::opaque]
pub open spec fn read_from(
    nodes: Map<Seq<char>, Seq<char>>,
    paths: Seq<Seq<char>>,
    n: i32,
) -> bool {
    exists|i: int|
        0 <= i < paths.len() && #[trigger] holds(nodes, paths[i], n) && none_of(
            nodes,
            paths.take(i),
        )
}

/// The first of the nodes that is there holds `text`, with white space around it or
/// without.
#[verifier::opaque]
pub open spec fn text_from(
    nodes: Map<Seq<char>, Seq<char>>,
    paths: Seq<Seq<char>>,
    text: Seq<char>,
) -> bool {
    text.len() > 0 && exists|i: int|
        0 <= i < paths.len() && nodes.dom().contains(#[trigger] paths[i]) && trimmed(
            nodes[paths[i]],
        ) == text && none_of(nodes, paths.take(i))
}

/// None of the nodes is there.
#[verifier::opaque]
pub open spec fn none_of(nodes: Map<Seq<char>, Seq<char>>, paths: Seq<Seq<char>>) -> bool {
    forall|i: int| 0 <= i < paths.len() ==> !nodes.dom().contains(#[trigger] paths[i])
}

/// `value` is the number of the first of the nodes that is there, and `otherwise`
/// where none is.
pub open spec fn int_shown(
    nodes: Map<Seq<char>, Seq<char>>,
    paths: Seq<Seq<char>>,
    n: i32,
    value: i32,
    otherwise: i32,
) -> bool {
    &&& read_from(nodes, paths, n) ==> value == n
    &&& none_of(nodes, paths) ==> value == otherwise
}

/// `value` is whether the number of the first of the nodes that is there is another
/// than 0; it is not where none is there.
pub open spec fn mark_shown(
    nodes: Map<Seq<char>, Seq<char>>,
    paths: Seq<Seq<char>>,
    n: i32,
    value: bool,
) -> bool {
    &&& read_from(nodes, paths, n) ==> value == (n != 0)
    &&& none_of(nodes, paths) ==> !value
}

/// `value` is the text of the first of the nodes that is there, and `otherwise`
/// where none is.
pub open spec fn text_shown(
    nodes: Map<Seq<char>, Seq<char>>,
    paths: Seq<Seq<char>>,
    text: Seq<char>,
    value: Seq<char>,
    otherwise: Seq<char>,
) -> bool {
    &&& text_from(nodes, paths, text) ==> value == text
    &&& none_of(nodes, paths) ==> value == otherwise
}

/// What a scan of `nodes` leads to, from what is known.
pub open spec fn shown(
    known: ChargerInfoView,
    nodes: Map<Seq<char>, Seq<char>>,
) -> ChargerInfoView {
    run(scan_start(known), nodes, SCAN_REQUESTS as nat).info
}

proof fn lemma_first_int(
    nodes: Map<Seq<char>, Seq<char>>,
    paths: Seq<Seq<char>>,
    n: i32,
    positive: bool,
)
    requires
        !positive || n > 0,
    ensures
        read_from(nodes, paths, n) ==> first_node_int(
            paths.map_values(|path: Seq<char>| contents_at(nodes, path)),
            positive,
        ) == Some(n),
        none_of(nodes, paths) ==> first_node_int(
            paths.map_values(|path: Seq<char>| contents_at(nodes, path)),
            positive,
        ) is None,
    decreases paths.len(),
{
    reveal(read_from);
    reveal(none_of);
    let offered = paths.map_values(|path: Seq<char>| contents_at(nodes, path));
    if paths.len() > 0 {
        let rest = paths.drop_first();
        lemma_first_int(nodes, rest, n, positive);
        assert(offered.drop_first() =~= rest.map_values(
            |path: Seq<char>| contents_at(nodes, path),
        ));
        if none_of(nodes, paths) {
            assert forall|i: int| 0 <= i < rest.len() implies !nodes.dom().contains(
                #[trigger] rest[i],
            ) by {
                assert(rest[i] == paths[i + 1]);
            }
            assert(!nodes.dom().contains(paths[0]));
        }
        if read_from(nodes, paths, n) {
            let i = choose|i: int|
                0 <= i < paths.len() && #[trigger] holds(nodes, paths[i], n) && none_of(
                    nodes,
                    paths.take(i),
                );
            if i == 0 {
                assert(node_int(offered[0]) == Some(n));
            } else {
                assert(paths.take(i)[0] == paths[0]);
                assert(!nodes.dom().contains(paths[0]));
                assert(rest[i - 1] == paths[i]);
                assert(holds(nodes, rest[i - 1], n));
                assert forall|j: int| 0 <= j < rest.take(i - 1).len() implies !nodes.dom().contains(
                    #[trigger] rest.take(i - 1)[j],
                ) by {
                    assert(rest.take(i - 1)[j] == paths.take(i)[j + 1]);
                }
                assert(read_from(nodes, rest, n));
            }
        }
    }
}

proof fn lemma_first_text(
    nodes: Map<Seq<char>, Seq<char>>,
    paths: Seq<Seq<char>>,
    text: Seq<char>,
)
    ensures
        text_from(nodes, paths, text) ==> first_node_text(
            paths.map_values(|path: Seq<char>| contents_at(nodes, path)),
        ) == Some(text),
        none_of(nodes, paths) ==> first_node_text(
            paths.map_values(|path: Seq<char>| contents_at(nodes, path)),
        ) is None,
    decreases paths.len(),
{
    reveal(text_from);
    reveal(none_of);
    let offered = paths.map_values(|path: Seq<char>| contents_at(nodes, path));
    if paths.len() > 0 {
        let rest = paths.drop_first();
        lemma_first_text(nodes, rest, text);
        assert(offered.drop_first() =~= rest.map_values(
            |path: Seq<char>| contents_at(nodes, path),
        ));
        if none_of(nodes, paths) {
            assert forall|i: int| 0 <= i < rest.len() implies !nodes.dom().contains(
                #[trigger] rest[i],
            ) by {
                assert(rest[i] == paths[i + 1]);
            }
            assert(!nodes.dom().contains(paths[0]));
        }
        if text_from(nodes, paths, text) {
            let i = choose|i: int|
                0 <= i < paths.len() && nodes.dom().contains(#[trigger] paths[i]) && trimmed(
                    nodes[paths[i]],
                ) == text && none_of(nodes, paths.take(i));
            if i > 0 {
                assert(paths.take(i)[0] == paths[0]);
                assert(!nodes.dom().contains(paths[0]));
                assert(rest[i - 1] == paths[i]);
                assert forall|j: int| 0 <= j < rest.take(i - 1).len() implies !nodes.dom().contains(
                    #[trigger] rest.take(i - 1)[j],
                ) by {
                    assert(rest.take(i - 1)[j] == paths.take(i)[j + 1]);
                }
                assert(text_from(nodes, rest, text));
            }
        }
    }
}

proof fn lemma_int_node(nodes: Map<Seq<char>, Seq<char>>, node: IntNode, n: i32)
    ensures
        read_from(nodes, node.spec_paths(), n) && (node != IntNode::AdapterPower || n > 0)
            ==> stable_int(nodes, node) == Some(n),
        none_of(nodes, node.spec_paths()) ==> stable_int(nodes, node) is None,
{
    reveal(stable_int);
    if node != IntNode::AdapterPower || n > 0 {
        lemma_first_int(nodes, node.spec_paths(), n, node.is_positive());
    } else {
        lemma_first_int(nodes, node.spec_paths(), 1, node.is_positive());
    }
}

proof fn lemma_text_node(nodes: Map<Seq<char>, Seq<char>>, node: TextNode, text: Seq<char>)
    ensures
        text_from(nodes, node.spec_paths(), text) ==> stable_text(nodes, node) == Some(text),
        none_of(nodes, node.spec_paths()) ==> stable_text(nodes, node) is None,
{
    reveal(stable_text);
    lemma_first_text(nodes, node.spec_paths(), text);
}

/// What a scan shows is what its nodes gave, but for what is derived from that and
/// for what is cleared without a charger.
proof fn lemma_shown(known: ChargerInfoView, nodes: Map<Seq<char>, Seq<char>>)
    ensures
        ({
            let info = shown(known, nodes);
            let read = read_info(known, nodes);
            &&& info == ChargerInfoView {
                usb_type: info.usb_type,
                usb_real_type: info.usb_real_type,
                quick_charge_type: info.quick_charge_type,
                pd_verified: info.pd_verified,
                cp_online: info.cp_online,
                cp_status: info.cp_status,
                cp_bus_voltage: info.cp_bus_voltage,
                cp_bus_current: info.cp_bus_current,
                cp_master_iin: info.cp_master_iin,
                cp_slave_iin: info.cp_slave_iin,
                fastchg_mode: info.fastchg_mode,
                sport_mode: info.sport_mode,
                adapter_power_w: info.adapter_power_w,
                fast_charge_type: info.fast_charge_type,
                charge_technology: info.charge_technology,
                charge_state: info.charge_state,
                remaining_time: info.remaining_time,
                ..read
            }
            &&& on_charger(info) == on_charger(read)
            &&& on_charger(info) ==> info == ChargerInfoView {
                adapter_power_w: stable_power(read, nodes),
                fast_charge_type: info.fast_charge_type,
                charge_technology: info.charge_technology,
                charge_state: info.charge_state,
                remaining_time: info.remaining_time,
                ..read
            }
        }),
{
    uncancelled_scan_completes(known, nodes, SCAN_REQUESTS as nat);
    reveal(classified);
}

/// Whether and how a power source is connected, and what comes in over USB.
pub proof fn scan_shows_the_power_source(
    known: ChargerInfoView,
    nodes: Map<Seq<char>, Seq<char>>,
    n: i32,
    text: Seq<char>,
)
    ensures
        ({
            let info = shown(known, nodes);
            &&& int_shown(
                nodes,
                seq!["/sys/class/power_supply/usb/online"@],
                n,
                info.usb_online,
                known.usb_online,
            )
            &&& int_shown(
                nodes,
                seq!["/sys/class/power_supply/ac/online"@],
                n,
                info.ac_online,
                known.ac_online,
            )
            &&& int_shown(
                nodes,
                seq![
                    "/sys/class/power_supply/wireless/online"@,
                    "/sys/class/power_supply/dc/online"@,
                ],
                n,
                info.wireless_online,
                known.wireless_online,
            )
            &&& int_shown(
                nodes,
                seq![
                    "/sys/class/power_supply/battery/pc_port_online"@,
                    "/sys/class/power_supply/usb/pc_port_online"@,
                    "/sys/class/qcom-battery/pc_port_online"@,
                ],
                n,
                info.pc_port_online,
                0,
            )
            &&& int_shown(
                nodes,
                seq![
                    "/sys/class/qcom-battery/connector_temp"@,
                    "/sys/class/power_supply/usb/usb_temp"@,
                ],
                n,
                info.usb_temp,
                known.usb_temp,
            )
            &&& int_shown(
                nodes,
                seq![
                    "/sys/class/qcom-battery/connector_temp"@,
                    "/sys/class/power_supply/usb/usb_temp"@,
                ],
                n,
                info.connector_temp,
                known.connector_temp,
            )
            &&& int_shown(
                nodes,
                seq!["/sys/class/qcom-battery/cc_orientation"@],
                n,
                info.cc_orientation,
                known.cc_orientation,
            )
            &&& text_shown(
                nodes,
                seq!["/sys/class/qcom-battery/wireless_type"@],
                text,
                info.wireless_type,
                known.wireless_type,
            )
            &&& text_shown(
                nodes,
                seq!["/sys/class/qcom-battery/typec_mode"@],
                text,
                info.typec_mode,
                known.typec_mode,
            )
        }),
{
    lemma_shown(known, nodes);
    lemma_int_node(nodes, IntNode::UsbOnline, n);
    lemma_int_node(nodes, IntNode::AcOnline, n);
    lemma_int_node(nodes, IntNode::WirelessOnline, n);
    lemma_int_node(nodes, IntNode::PcPortOnline, n);
    lemma_int_node(nodes, IntNode::UsbTemp, n);
    lemma_int_node(nodes, IntNode::ConnectorTemp, n);
    lemma_int_node(nodes, IntNode::CcOrientation, n);
    lemma_text_node(nodes, TextNode::WirelessType, text);
    lemma_text_node(nodes, TextNode::TypecMode, text);
}

/// What the battery reports of itself.
pub proof fn scan_shows_the_battery(
    known: ChargerInfoView,
    nodes: Map<Seq<char>, Seq<char>>,
    n: i32,
    text: Seq<char>,
)
    ensures
        ({
            let info = shown(known, nodes);
            &&& int_shown(
                nodes,
                seq!["/sys/class/power_supply/battery/temp"@],
                n,
                info.battery_temp,
                known.battery_temp,
            )
            &&& int_shown(
                nodes,
                seq!["/sys/class/power_supply/battery/current_now"@],
                n,
                info.battery_current_now,
                known.battery_current_now,
            )
            &&& int_shown(
                nodes,
                seq!["/sys/class/power_supply/battery/voltage_now"@],
                n,
                info.battery_voltage_now,
                known.battery_voltage_now,
            )
            &&& int_shown(
                nodes,
                seq![
                    "/sys/class/power_supply/battery/batt_fcc"@,
                    "/sys/class/qcom-battery/fg1_fcc"@,
                    "/sys/class/power_supply/battery/charge_full"@,
                ],
                n,
                info.charge_full,
                0,
            )
            &&& int_shown(
                nodes,
                seq![
                    "/sys/class/qcom-battery/fg1_cycle"@,
                    "/sys/class/power_supply/battery/cycle_count"@,
                ],
                n,
                info.cycle_count,
                0,
            )
            &&& text_shown(
                nodes,
                seq!["/sys/class/power_supply/battery/status"@],
                text,
                info.battery_status,
                known.battery_status,
            )
            &&& text_shown(
                nodes,
                seq!["/sys/class/power_supply/battery/health"@],
                text,
                info.battery_health,
                known.battery_health,
            )
            &&& text_shown(
                nodes,
                seq!["/sys/class/power_supply/battery/charge_type"@],
                text,
                info.battery_charge_type,
                known.battery_charge_type,
            )
            &&& text_shown(
                nodes,
                seq!["/sys/class/power_supply/battery/technology"@],
                text,
                info.battery_technology,
                known.battery_technology,
            )
            &&& text_shown(
                nodes,
                seq![
                    "/sys/class/power_supply/battery/battery_type"@,
                    "/sys/class/power_supply/battery/technology"@,
                ],
                text,
                info.battery_type,
                Seq::empty(),
            )
            &&& text_shown(
                nodes,
                seq![
                    "/sys/class/power_supply/battery/battery_sn"@,
                    "/sys/class/qcom-battery/batt_sn"@,
                    "/sys/class/power_supply/bms/serial_number"@,
                    "/sys/class/power_supply/battery/serial_number"@,
                ],
                text,
                info.batt_sn,
                Seq::empty(),
            )
        }),
{
    lemma_shown(known, nodes);
    lemma_int_node(nodes, IntNode::BatteryTemp, n);
    lemma_int_node(nodes, IntNode::BatteryCurrentNow, n);
    lemma_int_node(nodes, IntNode::BatteryVoltageNow, n);
    lemma_int_node(nodes, IntNode::ChargeFull, n);
    lemma_int_node(nodes, IntNode::CycleCount, n);
    lemma_text_node(nodes, TextNode::BatteryStatus, text);
    lemma_text_node(nodes, TextNode::BatteryHealth, text);
    lemma_text_node(nodes, TextNode::BatteryChargeType, text);
    lemma_text_node(nodes, TextNode::BatteryTechnology, text);
    lemma_text_node(nodes, TextNode::BatteryType, text);
    lemma_text_node(nodes, TextNode::BattSn, text);
}

/// What the gauge and the cells report.
pub proof fn scan_shows_the_gauge(
    known: ChargerInfoView,
    nodes: Map<Seq<char>, Seq<char>>,
    n: i32,
    text: Seq<char>,
)
    ensures
        ({
            let info = shown(known, nodes);
            &&& int_shown(
                nodes,
                seq!["/sys/class/power_supply/battery/batt_fcc"@],
                n,
                info.fg_fcc,
                0,
            )
            &&& int_shown(
                nodes,
                seq!["/sys/class/power_supply/battery/batt_rm"@],
                n,
                info.fg_rm,
                0,
            )
            &&& int_shown(
                nodes,
                seq!["/sys/class/qcom-battery/fg1_rsoc"@],
                n,
                info.fg_rsoc,
                0,
            )
            &&& int_shown(
                nodes,
                seq!["/sys/class/qcom-battery/fg1_cycle"@],
                n,
                info.fg_cycle,
                0,
            )
            &&& int_shown(
                nodes,
                seq![
                    "/sys/class/qcom-battery/fg1_soh"@,
                    "/sys/class/qcom-battery/soh"@,
                    "/sys/class/power_supply/bms/soh"@,
                ],
                n,
                info.fg_soh,
                0,
            )
            &&& int_shown(
                nodes,
                seq![
                    "/sys/class/qcom-battery/fg1_qmax"@,
                    "/sys/class/power_supply/battery/qmax"@,
                ],
                n,
                info.fg_qmax,
                0,
            )
            &&& int_shown(
                nodes,
                seq!["/sys/class/qcom-battery/fg1_ai"@],
                n,
                info.fg_ai,
                0,
            )
            &&& int_shown(
                nodes,
                seq!["/sys/class/qcom-battery/fg1_avg_current"@],
                n,
                info.fg_avg_current,
                0,
            )
            &&& int_shown(
                nodes,
                seq!["/sys/class/qcom-battery/fg1_cell1_vol"@],
                n,
                info.cell1_vol,
                0,
            )
            &&& int_shown(
                nodes,
                seq!["/sys/class/qcom-battery/fg1_cell2_vol"@],
                n,
                info.cell2_vol,
                0,
            )
            &&& int_shown(
                nodes,
                seq!["/sys/class/qcom-battery/fg1_cell1_rascale"@],
                n,
                info.cell1_rascale,
                0,
            )
            &&& text_shown(
                nodes,
                seq!["/sys/class/qcom-battery/fg_vendor"@],
                text,
                info.fg_vendor,
                Seq::empty(),
            )
            &&& text_shown(
                nodes,
                seq!["/sys/class/qcom-battery/fg_vendor"@],
                text,
                info.gauge_type,
                Seq::empty(),
            )
        }),
{
    lemma_shown(known, nodes);
    lemma_int_node(nodes, IntNode::FgFcc, n);
    lemma_int_node(nodes, IntNode::FgRm, n);
    lemma_int_node(nodes, IntNode::FgRsoc, n);
    lemma_int_node(nodes, IntNode::FgCycle, n);
    lemma_int_node(nodes, IntNode::FgSoh, n);
    lemma_int_node(nodes, IntNode::FgQmax, n);
    lemma_int_node(nodes, IntNode::FgAi, n);
    lemma_int_node(nodes, IntNode::FgAvgCurrent, n);
    lemma_int_node(nodes, IntNode::Cell1Vol, n);
    lemma_int_node(nodes, IntNode::Cell2Vol, n);
    lemma_int_node(nodes, IntNode::Cell1Rascale, n);
    lemma_text_node(nodes, TextNode::FgVendor, text);
}

/// The limits and the settled values of the input.
pub proof fn scan_shows_the_input(
    known: ChargerInfoView,
    nodes: Map<Seq<char>, Seq<char>>,
    n: i32,
    text: Seq<char>,
)
    ensures
        ({
            let info = shown(known, nodes);
            &&& int_shown(
                nodes,
                seq![
                    "/sys/class/qcom-battery/fg1_current_max"@,
                    "/sys/class/qcom-battery/constant_power"@,
                    "/sys/class/power_supply/usb_main/constant_charge_current_max"@,
                    "/sys/class/power_supply/usb/current_max"@,
                    "/sys/class/power_supply/usb_main/input_current_max"@,
                    "/sys/class/qcom-battery/restrict_cur"@,
                ],
                n,
                info.input_current_max,
                0,
            )
            &&& int_shown(
                nodes,
                seq!["/sys/class/power_supply/usb/voltage_max"@],
                n,
                info.input_voltage_max,
                0,
            )
            &&& int_shown(
                nodes,
                seq![
                    "/sys/class/power_supply/main/input_current_settled"@,
                    "/sys/class/power_supply/usb/input_current_settled"@,
                ],
                n,
                info.input_current_settled,
                0,
            )
            &&& int_shown(
                nodes,
                seq![
                    "/sys/class/power_supply/main/input_voltage_settled"@,
                    "/sys/class/power_supply/usb/input_voltage_settled"@,
                ],
                n,
                info.input_voltage_settled,
                0,
            )
            &&& int_shown(
                nodes,
                seq!["/sys/class/qcom-battery/restrict_chg"@],
                n,
                info.restrict_chg,
                0,
            )
            &&& int_shown(
                nodes,
                seq![
                    "/sys/class/power_supply/battery/input_suspend"@,
                    "/sys/class/qcom-battery/input_suspend"@,
                ],
                n,
                info.input_suspend,
                0,
            )
            &&& text_shown(
                nodes,
                seq!["/sys/class/qcom-battery/current_state"@],
                text,
                info.current_state,
                Seq::empty(),
            )
        }),
{
    lemma_shown(known, nodes);
    lemma_int_node(nodes, IntNode::InputCurrentMax, n);
    lemma_int_node(nodes, IntNode::InputVoltageMax, n);
    lemma_int_node(nodes, IntNode::InputCurrentSettled, n);
    lemma_int_node(nodes, IntNode::InputVoltageSettled, n);
    lemma_int_node(nodes, IntNode::RestrictChg, n);
    lemma_int_node(nodes, IntNode::InputSuspend, n);
    lemma_text_node(nodes, TextNode::CurrentState, text);
}

/// The switches, the temperatures and the records of the board.
pub proof fn scan_shows_the_switches(
    known: ChargerInfoView,
    nodes: Map<Seq<char>, Seq<char>>,
    n: i32,
)
    ensures
        ({
            let info = shown(known, nodes);
            &&& int_shown(
                nodes,
                seq!["/sys/class/qcom-battery/smart_chg"@],
                n,
                info.smart_chg,
                0,
            )
            &&& int_shown(
                nodes,
                seq!["/sys/class/qcom-battery/night_charging"@],
                n,
                info.night_charging,
                0,
            )
            &&& int_shown(
                nodes,
                seq!["/sys/class/qcom-battery/smart_batt"@],
                n,
                info.smart_batt,
                0,
            )
            &&& int_shown(
                nodes,
                seq!["/sys/class/qcom-battery/die_temperature"@],
                n,
                info.die_temperature,
                0,
            )
            &&& int_shown(
                nodes,
                seq!["/sys/class/qcom-battery/slave_die_temperature"@],
                n,
                info.slave_die_temperature,
                0,
            )
            &&& int_shown(
                nodes,
                seq!["/sys/class/qcom-battery/thermal_board_temp"@],
                n,
                info.thermal_board_temp,
                0,
            )
            &&& int_shown(
                nodes,
                seq!["/sys/class/qcom-battery/battcont_online"@],
                n,
                info.batt_cont_online,
                0,
            )
            &&& int_shown(
                nodes,
                seq!["/sys/class/qcom-battery/max_life_temp"@],
                n,
                info.max_life_temp,
                0,
            )
            &&& int_shown(
                nodes,
                seq!["/sys/class/qcom-battery/max_life_vol"@],
                n,
                info.max_life_vol,
                0,
            )
            &&& int_shown(
                nodes,
                seq!["/sys/class/qcom-battery/over_vol_duration"@],
                n,
                info.over_vol_duration,
                0,
            )
        }),
{
    lemma_shown(known, nodes);
    lemma_int_node(nodes, IntNode::SmartChg, n);
    lemma_int_node(nodes, IntNode::NightCharging, n);
    lemma_int_node(nodes, IntNode::SmartBatt, n);
    lemma_int_node(nodes, IntNode::DieTemperature, n);
    lemma_int_node(nodes, IntNode::SlaveDieTemperature, n);
    lemma_int_node(nodes, IntNode::ThermalBoardTemp, n);
    lemma_int_node(nodes, IntNode::BattContOnline, n);
    lemma_int_node(nodes, IntNode::MaxLifeTemp, n);
    lemma_int_node(nodes, IntNode::MaxLifeVol, n);
    lemma_int_node(nodes, IntNode::OverVolDuration, n);
}

/// The marks of the board, and the values that stand in for measured ones.
pub proof fn scan_shows_the_marks(
    known: ChargerInfoView,
    nodes: Map<Seq<char>, Seq<char>>,
    n: i32,
)
    ensures
        ({
            let info = shown(known, nodes);
            &&& mark_shown(
                nodes,
                seq!["/sys/class/qcom-battery/moisture_detection_status"@],
                n,
                info.moisture_detected,
            )
            &&& mark_shown(
                nodes,
                seq!["/sys/class/qcom-battery/flash_active"@],
                n,
                info.flash_active,
            )
            &&& mark_shown(
                nodes,
                seq!["/sys/class/qcom-battery/hifi_connect"@],
                n,
                info.hifi_connect,
            )
            &&& mark_shown(
                nodes,
                seq!["/sys/class/qcom-battery/vbus_disable"@],
                n,
                info.vbus_disable,
            )
            &&& int_shown(
                nodes,
                seq!["/sys/class/qcom-battery/otg_ui_support"@],
                n,
                info.otg_ui_support,
                0,
            )
            &&& int_shown(
                nodes,
                seq!["/sys/class/qcom-battery/fake_soc"@],
                n,
                info.fake_soc,
                0,
            )
            &&& int_shown(
                nodes,
                seq!["/sys/class/qcom-battery/fake_soh"@],
                n,
                info.fake_soh,
                0,
            )
            &&& int_shown(
                nodes,
                seq!["/sys/class/qcom-battery/fake_cycle"@],
                n,
                info.fake_cycle,
                0,
            )
            &&& int_shown(
                nodes,
                seq!["/sys/class/qcom-battery/fake_temp"@],
                n,
                info.fake_temp,
                0,
            )
        }),
{
    lemma_shown(known, nodes);
    lemma_int_node(nodes, IntNode::MoistureStatus, n);
    lemma_int_node(nodes, IntNode::FlashActive, n);
    lemma_int_node(nodes, IntNode::HifiConnect, n);
    lemma_int_node(nodes, IntNode::VbusDisable, n);
    lemma_int_node(nodes, IntNode::OtgUiSupport, n);
    lemma_int_node(nodes, IntNode::FakeSoc, n);
    lemma_int_node(nodes, IntNode::FakeSoh, n);
    lemma_int_node(nodes, IntNode::FakeCycle, n);
    lemma_int_node(nodes, IntNode::FakeTemp, n);
}

/// On a charger a scan shows the evidence of fast charging as the nodes give it.
pub proof fn scan_shows_the_evidence(
    known: ChargerInfoView,
    nodes: Map<Seq<char>, Seq<char>>,
    n: i32,
    text: Seq<char>,
)
    requires
        on_charger(shown(known, nodes)),
    ensures
        ({
            let info = shown(known, nodes);
            &&& int_shown(
                nodes,
                seq![
                    "/sys/class/qcom-battery/fastchg_mode"@,
                    "/sys/class/power_supply/bms/fastcharge_mode"@,
                ],
                n,
                info.fastchg_mode,
                0,
            )
            &&& int_shown(
                nodes,
                seq!["/sys/class/qcom-battery/sport_mode"@],
                n,
                info.sport_mode,
                0,
            )
            &&& int_shown(
                nodes,
                seq![
                    "/sys/class/qcom-battery/pd_verifed"@,
                    "/sys/class/power_supply/usb/pd_authentication"@,
                    "/sys/class/subpmic-battery/pd_verifed"@,
                    "/sys/class/Charging_Adapter/pd_adapter/usbpd_verifed"@,
                ],
                n,
                info.pd_verified,
                0,
            )
            &&& int_shown(
                nodes,
                seq![
                    "/sys/class/power_supply/cp/online"@,
                    "/sys/class/qcom-battery/bq2597x_chip_ok"@,
                    "/sys/class/qcom-battery/master_smb1396_online"@,
                    "/sys/class/qcom-battery/slave_smb1396_online"@,
                ],
                n,
                info.cp_online,
                0,
            )
            &&& int_shown(
                nodes,
                seq!["/sys/class/qcom-battery/master_smb1396_iin"@],
                n,
                info.cp_master_iin,
                0,
            )
            &&& int_shown(
                nodes,
                seq!["/sys/class/qcom-battery/slave_smb1396_iin"@],
                n,
                info.cp_slave_iin,
                0,
            )
            &&& int_shown(
                nodes,
                seq!["/sys/class/qcom-battery/bq2597x_bus_voltage"@],
                n,
                info.cp_bus_voltage,
                known.cp_bus_voltage,
            )
            &&& int_shown(
                nodes,
                seq!["/sys/class/qcom-battery/bq2597x_bus_current"@],
                n,
                info.cp_bus_current,
                known.cp_bus_current,
            )
            &&& text_shown(
                nodes,
                seq![
                    "/sys/class/qcom-battery/quick_charge_type"@,
                    "/sys/class/power_supply/usb/quick_charge_type"@,
                    "/sys/class/power_supply/battery/quick_charge_type"@,
                ],
                text,
                info.quick_charge_type,
                Seq::empty(),
            )
            &&& text_shown(
                nodes,
                seq!["/sys/class/power_supply/cp/status"@],
                text,
                info.cp_status,
                Seq::empty(),
            )
        }),
{
    lemma_shown(known, nodes);
    lemma_int_node(nodes, IntNode::FastchgMode, n);
    lemma_int_node(nodes, IntNode::SportMode, n);
    lemma_int_node(nodes, IntNode::PdVerified, n);
    lemma_int_node(nodes, IntNode::CpOnline, n);
    lemma_int_node(nodes, IntNode::CpMasterIin, n);
    lemma_int_node(nodes, IntNode::CpSlaveIin, n);
    lemma_int_node(nodes, IntNode::CpBusVoltage, n);
    lemma_int_node(nodes, IntNode::CpBusCurrent, n);
    lemma_text_node(nodes, TextNode::QuickChargeType, text);
    lemma_text_node(nodes, TextNode::CpStatus, text);
}

/// The USB type is the real type where a node gives one, and otherwise the type that
/// the kernel gives; on a charger both are shown.
pub proof fn scan_shows_the_usb_type(
    known: ChargerInfoView,
    nodes: Map<Seq<char>, Seq<char>>,
    actual: Seq<char>,
    plain: Seq<char>,
)
    requires
        on_charger(shown(known, nodes)),
    ensures
        ({
            let info = shown(known, nodes);
            let actual_nodes = seq![
                "/sys/class/qcom-battery/real_type"@,
                "/sys/class/power_supply/usb/real_type"@,
                "/sys/class/qcom-battery/usb_real_type"@,
            ];
            let plain_nodes = seq!["/sys/class/power_supply/usb/type"@];
            &&& text_from(nodes, actual_nodes, actual) ==> info.usb_real_type == actual
                && info.usb_type == actual
            &&& none_of(nodes, actual_nodes) ==> info.usb_real_type.len() == 0
            &&& none_of(nodes, actual_nodes) && text_from(nodes, plain_nodes, plain)
                ==> info.usb_type == plain
            &&& none_of(nodes, actual_nodes) && none_of(nodes, plain_nodes) ==> info.usb_type
                == known.usb_type
        }),
{
    lemma_shown(known, nodes);
    lemma_text_node(nodes, TextNode::UsbRealType, actual);
    lemma_text_node(nodes, TextNode::UsbType, plain);
}

/// The percent is read in percent or in hundredths of one, and kept where it cannot
/// be read.
pub proof fn scan_shows_the_percent(
    known: ChargerInfoView,
    nodes: Map<Seq<char>, Seq<char>>,
    n: i32,
)
    ensures
        ({
            let percent = shown(known, nodes).battery_capacity;
            let paths = seq![
                "/sys/class/power_supply/battery/capacity"@,
                "/sys/class/qcom-battery/fg1_rsoc"@,
            ];
            &&& read_from(nodes, paths, n) && 0 <= n <= 100 ==> percent == n
            &&& read_from(nodes, paths, n) && 100 < n <= 10_000 ==> percent * 100 <= n < (percent
                + 1) * 100
            &&& read_from(nodes, paths, n) && n < 0 ==> percent == 0
            &&& read_from(nodes, paths, n) && n > 10_000 ==> percent == 100
            &&& none_of(nodes, paths) ==> percent == known.battery_capacity
        }),
{
    lemma_shown(known, nodes);
    lemma_int_node(nodes, IntNode::BatteryCapacity, n);
}

/// A USB voltage or current of 0 gives way to that of the charge pump's bus, a
/// design capacity of 0 to the full capacity, and a charge counter of 0 to the
/// gauge's remaining charge. Any other stands.
pub proof fn scan_fills_in_for_zeros(
    known: ChargerInfoView,
    nodes: Map<Seq<char>, Seq<char>>,
    n: i32,
    other: i32,
)
    requires
        n != 0,
    ensures
        ({
            let info = shown(known, nodes);
            let usb_voltage = seq!["/sys/class/power_supply/usb/voltage_now"@];
            let bus_voltage = seq!["/sys/class/qcom-battery/bq2597x_bus_voltage"@];
            &&& read_from(nodes, usb_voltage, n) ==> info.usb_voltage_now == n
            &&& read_from(nodes, usb_voltage, 0) && read_from(nodes, bus_voltage, other)
                ==> info.usb_voltage_now == other
        }),
        ({
            let info = shown(known, nodes);
            let usb_current = seq![
                "/sys/class/power_supply/usb/current_now"@,
                "/sys/class/power_supply/usb/input_current_now"@,
            ];
            let bus_current = seq!["/sys/class/qcom-battery/bq2597x_bus_current"@];
            &&& read_from(nodes, usb_current, n) ==> info.usb_current_now == n
            &&& read_from(nodes, usb_current, 0) && read_from(nodes, bus_current, other)
                ==> info.usb_current_now == other
        }),
        ({
            let info = shown(known, nodes);
            let design = seq![
                "/sys/class/power_supply/battery/charge_full_design"@,
                "/sys/class/qcom-battery/fg1_design_capacity"@,
                "/sys/class/qcom-battery/fg2_design_capacity"@,
            ];
            &&& read_from(nodes, design, n) ==> info.charge_full_design == n
            &&& read_from(nodes, design, 0) || none_of(nodes, design) ==> info.charge_full_design
                == info.charge_full
        }),
        ({
            let info = shown(known, nodes);
            let counter = seq!["/sys/class/power_supply/battery/charge_counter"@];
            &&& read_from(nodes, counter, n) ==> info.charge_counter == n
            &&& read_from(nodes, counter, 0) || none_of(nodes, counter) ==> info.charge_counter
                == info.fg_rm
        }),
{
    lemma_shown(known, nodes);
    lemma_int_node(nodes, IntNode::UsbVoltageNow, n);
    lemma_int_node(nodes, IntNode::UsbVoltageNow, 0);
    lemma_int_node(nodes, IntNode::CpBusVoltage, other);
    lemma_int_node(nodes, IntNode::UsbCurrentNow, n);
    lemma_int_node(nodes, IntNode::UsbCurrentNow, 0);
    lemma_int_node(nodes, IntNode::CpBusCurrent, other);
    lemma_int_node(nodes, IntNode::ChargeFullDesign, n);
    lemma_int_node(nodes, IntNode::ChargeFullDesign, 0);
    lemma_int_node(nodes, IntNode::ChargeCounter, n);
    lemma_int_node(nodes, IntNode::ChargeCounter, 0);
}

/// The adapter power of a charger is the direct reading, in watts; without one it is
/// the constant-power reading; and without either it is estimated from what the
/// nodes gave. Where there is no charger it is 0.
pub proof fn scan_shows_the_power(
    known: ChargerInfoView,
    nodes: Map<Seq<char>, Seq<char>>,
    n: i32,
)
    requires
        n > 0,
    ensures
        ({
            let info = shown(known, nodes);
            let direct = seq![
                "/sys/class/qcom-battery/apdo_max"@,
                "/sys/class/qcom-battery/power_max"@,
                "/sys/class/power_supply/usb/apdo_max"@,
                "/sys/class/power_supply/usb/power_max"@,
                "/sys/class/qcom-battery/referance_power"@,
            ];
            let constant = seq!["/sys/class/qcom-battery/constant_power"@];
            &&& on_charger(info) && read_from(nodes, direct, n) ==> info.adapter_power_w
                == watts_from_reading(n)
            &&& on_charger(info) && none_of(nodes, direct) && read_from(nodes, constant, n)
                ==> info.adapter_power_w == watts_from_reading(n)
            &&& on_charger(info) && none_of(nodes, direct) && none_of(nodes, constant)
                ==> info.adapter_power_w == estimated_power(info, 0, 0)
            &&& !on_charger(info) ==> info.adapter_power_w == 0
        }),
{
    lemma_shown(known, nodes);
    uncancelled_scan_completes(known, nodes, SCAN_REQUESTS as nat);
    reveal(classified);
    lemma_int_node(nodes, IntNode::AdapterPower, n);
    lemma_int_node(nodes, IntNode::ConstantPower, n);
    let read = read_info(known, nodes);
    estimates_are_not_negative(read, 0, 0);
    estimates_are_not_negative(read, n, 0);
    estimates_are_not_negative(read, 0, n);
}

/// The remaining time is what its node says, in seconds, where that is a day at most.
pub proof fn scan_shows_the_remaining_time(
    known: ChargerInfoView,
    nodes: Map<Seq<char>, Seq<char>>,
    n: i32,
)
    requires
        0 < n <= 86_400,
    ensures
        read_from(
            nodes,
            seq![
                "/sys/class/qcom-battery/remaining_time"@,
                "/sys/class/power_supply/battery/time_to_full_now"@,
            ],
            n,
        ) ==> shown(known, nodes).remaining_time == n,
{
    uncancelled_scan_completes(known, nodes, SCAN_REQUESTS as nat);
    reveal(classified);
    lemma_int_node(nodes, IntNode::RemainingTime, n);
}

/// The decimal state of charge, its rate and the maximum control level, which no
/// scan reads, have their own nodes.
pub proof fn other_readings_have_their_nodes(nodes: Map<Seq<char>, Seq<char>>, n: i32)
    ensures
        read_from(
            nodes,
            seq![
                "/proc/ui_soc_decimal"@,
                "/sys/class/power_supply/bms/soc_decimal"@,
                "/sys/class/qcom-battery/soc_decimal"@,
            ],
            n,
        ) ==> stable_int(nodes, IntNode::UiSocDecimal) == Some(n),
        read_from(
            nodes,
            seq![
                "/sys/class/power_supply/bms/soc_decimal_rate"@,
                "/sys/class/qcom-battery/soc_decimal_rate"@,
            ],
            n,
        ) ==> stable_int(nodes, IntNode::UiSocDecimalRate) == Some(n),
        read_from(
            nodes,
            seq![
                "/sys/class/power_supply/battery/charge_control_limit_max"@,
                "/sys/class/qcom-battery/charge_control_limit_max"@,
            ],
            n,
        ) ==> stable_int(nodes, IntNode::ChargeControlLimitMax) == Some(n),
{
    lemma_int_node(nodes, IntNode::UiSocDecimal, n);
    lemma_int_node(nodes, IntNode::UiSocDecimalRate, n);
    lemma_int_node(nodes, IntNode::ChargeControlLimitMax, n);
}

} // verus!
