//! What a scan gives over nodes that hold still while it runs.

use crate::classify::{estimated_power, fast_inputs_of};
use crate::info::ChargerInfoView;
use crate::nodes::{first_node_int, first_node_text, IntNode, TextNode};
use crate::readings::{kept, kept_text, nonzero_or, with_int, with_text};
use crate::recheck::{
    recheck_start, recheck_takes_the_highest_power, recheck_typed, rechecked_power, PowerRecheck,
    RecheckStep, POWER_RECHECK_READS,
};
use crate::scan::{
    after_op, classified, direct_watts, evidence_cleared, nodes_done, rechecking, scan_op,
    scan_start, session_cleared, stage_request, ScanOp, ScanRequest, ScanStage, ScanView, SCAN_OPS,
};
use crate::units::capacity_percent;
use vstd::prelude::*;

verus! {

/// What the node at `path` holds; `None` where it cannot be read.
pub open spec fn contents_at(
    nodes: Map<Seq<char>, Seq<char>>,
    path: Seq<char>,
) -> Option<Seq<char>> {
    if nodes.dom().contains(path) {
        Some(nodes[path])
    } else {
        None
    }
}

/// What an integer metric reads.
#[verifier::opaque]
pub open spec fn stable_int(nodes: Map<Seq<char>, Seq<char>>, node: IntNode) -> Option<i32> {
    first_node_int(
        node.spec_paths().map_values(|path: Seq<char>| contents_at(nodes, path)),
        node.is_positive(),
    )
}

/// What a text metric reads.
#[verifier::opaque]
pub open spec fn stable_text(nodes: Map<Seq<char>, Seq<char>>, node: TextNode) -> Option<
    Seq<char>,
> {
    first_node_text(node.spec_paths().map_values(|path: Seq<char>| contents_at(nodes, path)))
}

/// The charging state that the nodes give: a metric that cannot be read keeps
/// its known value among the live ones, and is 0 or empty among the others.
pub open spec fn read_info(
    info: ChargerInfoView,
    nodes: Map<Seq<char>, Seq<char>>,
) -> ChargerInfoView {
    ChargerInfoView {
        usb_online: kept(stable_int(nodes, IntNode::UsbOnline), info.usb_online),
        usb_type: kept_text(
            stable_text(nodes, TextNode::UsbRealType),
            kept_text(stable_text(nodes, TextNode::UsbType), info.usb_type),
        ),
        usb_real_type: kept_text(stable_text(nodes, TextNode::UsbRealType), Seq::empty()),
        usb_voltage_now: nonzero_or(
            kept(stable_int(nodes, IntNode::UsbVoltageNow), info.usb_voltage_now),
            kept(stable_int(nodes, IntNode::CpBusVoltage), info.cp_bus_voltage),
        ),
        usb_current_now: nonzero_or(
            kept(stable_int(nodes, IntNode::UsbCurrentNow), info.usb_current_now),
            kept(stable_int(nodes, IntNode::CpBusCurrent), info.cp_bus_current),
        ),
        usb_temp: kept(stable_int(nodes, IntNode::UsbTemp), info.usb_temp),
        connector_temp: kept(stable_int(nodes, IntNode::ConnectorTemp), info.connector_temp),
        ac_online: kept(stable_int(nodes, IntNode::AcOnline), info.ac_online),
        pc_port_online: kept(stable_int(nodes, IntNode::PcPortOnline), 0),
        wireless_online: kept(stable_int(nodes, IntNode::WirelessOnline), info.wireless_online),
        wireless_type: kept_text(stable_text(nodes, TextNode::WirelessType), info.wireless_type),
        typec_mode: kept_text(stable_text(nodes, TextNode::TypecMode), info.typec_mode),
        cc_orientation: kept(stable_int(nodes, IntNode::CcOrientation), info.cc_orientation),
        battery_status: kept_text(stable_text(nodes, TextNode::BatteryStatus), info.battery_status),
        battery_health: kept_text(stable_text(nodes, TextNode::BatteryHealth), info.battery_health),
        battery_capacity: match stable_int(nodes, IntNode::BatteryCapacity) {
            Some(v) => capacity_percent(v),
            None => info.battery_capacity,
        },
        battery_temp: kept(stable_int(nodes, IntNode::BatteryTemp), info.battery_temp),
        battery_current_now: kept(
            stable_int(nodes, IntNode::BatteryCurrentNow),
            info.battery_current_now,
        ),
        battery_voltage_now: kept(
            stable_int(nodes, IntNode::BatteryVoltageNow),
            info.battery_voltage_now,
        ),
        battery_charge_type: kept_text(
            stable_text(nodes, TextNode::BatteryChargeType),
            info.battery_charge_type,
        ),
        battery_technology: kept_text(
            stable_text(nodes, TextNode::BatteryTechnology),
            info.battery_technology,
        ),
        charge_full: kept(stable_int(nodes, IntNode::ChargeFull), 0),
        charge_full_design: nonzero_or(
            kept(stable_int(nodes, IntNode::ChargeFullDesign), 0),
            kept(stable_int(nodes, IntNode::ChargeFull), 0),
        ),
        charge_counter: nonzero_or(
            kept(stable_int(nodes, IntNode::ChargeCounter), 0),
            kept(stable_int(nodes, IntNode::FgRm), 0),
        ),
        cycle_count: kept(stable_int(nodes, IntNode::CycleCount), 0),
        fg_fcc: kept(stable_int(nodes, IntNode::FgFcc), 0),
        fg_rm: kept(stable_int(nodes, IntNode::FgRm), 0),
        fg_rsoc: kept(stable_int(nodes, IntNode::FgRsoc), 0),
        fg_soh: kept(stable_int(nodes, IntNode::FgSoh), 0),
        fg_cycle: kept(stable_int(nodes, IntNode::FgCycle), 0),
        fg_qmax: kept(stable_int(nodes, IntNode::FgQmax), 0),
        fg_ai: kept(stable_int(nodes, IntNode::FgAi), 0),
        fg_avg_current: kept(stable_int(nodes, IntNode::FgAvgCurrent), 0),
        fg_vendor: kept_text(stable_text(nodes, TextNode::FgVendor), Seq::empty()),
        battery_type: kept_text(stable_text(nodes, TextNode::BatteryType), Seq::empty()),
        gauge_type: kept_text(stable_text(nodes, TextNode::FgVendor), Seq::empty()),
        gauge_info: Seq::empty(),
        cell1_vol: kept(stable_int(nodes, IntNode::Cell1Vol), 0),
        cell2_vol: kept(stable_int(nodes, IntNode::Cell2Vol), 0),
        cell1_rascale: kept(stable_int(nodes, IntNode::Cell1Rascale), 0),
        quick_charge_type: kept_text(stable_text(nodes, TextNode::QuickChargeType), Seq::empty()),
        pd_verified: kept(stable_int(nodes, IntNode::PdVerified), 0),
        input_current_max: kept(stable_int(nodes, IntNode::InputCurrentMax), 0),
        input_voltage_max: kept(stable_int(nodes, IntNode::InputVoltageMax), 0),
        input_current_settled: kept(stable_int(nodes, IntNode::InputCurrentSettled), 0),
        input_voltage_settled: kept(stable_int(nodes, IntNode::InputVoltageSettled), 0),
        fastchg_mode: kept(stable_int(nodes, IntNode::FastchgMode), 0),
        current_state: kept_text(stable_text(nodes, TextNode::CurrentState), Seq::empty()),
        sport_mode: kept(stable_int(nodes, IntNode::SportMode), 0),
        cp_online: kept(stable_int(nodes, IntNode::CpOnline), 0),
        cp_status: kept_text(stable_text(nodes, TextNode::CpStatus), Seq::empty()),
        cp_bus_voltage: kept(stable_int(nodes, IntNode::CpBusVoltage), info.cp_bus_voltage),
        cp_bus_current: kept(stable_int(nodes, IntNode::CpBusCurrent), info.cp_bus_current),
        cp_master_iin: kept(stable_int(nodes, IntNode::CpMasterIin), 0),
        cp_slave_iin: kept(stable_int(nodes, IntNode::CpSlaveIin), 0),
        remaining_time: kept(stable_int(nodes, IntNode::RemainingTime), 0),
        restrict_chg: kept(stable_int(nodes, IntNode::RestrictChg), 0),
        input_suspend: kept(stable_int(nodes, IntNode::InputSuspend), 0),
        smart_chg: kept(stable_int(nodes, IntNode::SmartChg), 0),
        night_charging: kept(stable_int(nodes, IntNode::NightCharging), 0),
        smart_batt: kept(stable_int(nodes, IntNode::SmartBatt), 0),
        die_temperature: kept(stable_int(nodes, IntNode::DieTemperature), 0),
        slave_die_temperature: kept(stable_int(nodes, IntNode::SlaveDieTemperature), 0),
        thermal_board_temp: kept(stable_int(nodes, IntNode::ThermalBoardTemp), 0),
        batt_sn: kept_text(stable_text(nodes, TextNode::BattSn), Seq::empty()),
        authentic: 1,
        batt_cont_online: kept(stable_int(nodes, IntNode::BattContOnline), 0),
        max_life_temp: kept(stable_int(nodes, IntNode::MaxLifeTemp), 0),
        max_life_vol: kept(stable_int(nodes, IntNode::MaxLifeVol), 0),
        over_vol_duration: kept(stable_int(nodes, IntNode::OverVolDuration), 0),
        moisture_detected: kept(stable_int(nodes, IntNode::MoistureStatus), 0) != 0,
        flash_active: kept(stable_int(nodes, IntNode::FlashActive), 0) != 0,
        hifi_connect: kept(stable_int(nodes, IntNode::HifiConnect), 0) != 0,
        vbus_disable: kept(stable_int(nodes, IntNode::VbusDisable), 0) != 0,
        otg_ui_support: kept(stable_int(nodes, IntNode::OtgUiSupport), 0),
        fake_soc: kept(stable_int(nodes, IntNode::FakeSoc), 0),
        fake_soh: kept(stable_int(nodes, IntNode::FakeSoh), 0),
        fake_cycle: kept(stable_int(nodes, IntNode::FakeCycle), 0),
        fake_temp: kept(stable_int(nodes, IntNode::FakeTemp), 0),
        ..info
    }
}

/// The adapter power that the nodes give.
pub open spec fn stable_power(
    info: ChargerInfoView,
    nodes: Map<Seq<char>, Seq<char>>,
) -> i32 {
    let direct = kept(stable_int(nodes, IntNode::AdapterPower), 0);
    let constant = kept(stable_int(nodes, IntNode::ConstantPower), 0);
    let again = direct_watts(stable_int(nodes, IntNode::AdapterPower));
    rechecked_power(
        estimated_power(info, direct, constant),
        info.quick_charge_type,
        kept_text(stable_text(nodes, TextNode::QuickChargeType), Seq::empty()),
        (again, again, again),
    )
}

/// The result of a completed scan, from what was known before it.
pub open spec fn scanned(
    info: ChargerInfoView,
    nodes: Map<Seq<char>, Seq<char>>,
) -> ChargerInfoView {
    let read = read_info(info, nodes);
    if !read.online() {
        classified(session_cleared(read))
    } else if fast_inputs_of(read).on_data_port() {
        classified(evidence_cleared(read))
    } else {
        classified(ChargerInfoView { adapter_power_w: stable_power(read, nodes), ..read })
    }
}

/// The scan after one request is answered from `nodes`, and without giving up.
pub open spec fn answered(scan: ScanView, nodes: Map<Seq<char>, Seq<char>>) -> ScanView {
    match stage_request(scan.stage) {
        ScanRequest::CheckCancel => scan.checked(false),
        ScanRequest::ReadInt(node) => scan.int_read(stable_int(nodes, node)),
        ScanRequest::ReadText(node) => scan.text_read(stable_text(nodes, node)),
        ScanRequest::Wait(_) => scan.after_wait(),
        ScanRequest::Finished(_) => scan,
    }
}

/// The scan after `n` requests are answered.
#[verifier::opaque]
pub open spec fn run(scan: ScanView, nodes: Map<Seq<char>, Seq<char>>, n: nat) -> ScanView
    decreases n,
{
    if n == 0 {
        scan
    } else {
        run(answered(scan, nodes), nodes, (n - 1) as nat)
    }
}

spec fn op_applied(
    info: ChargerInfoView,
    nodes: Map<Seq<char>, Seq<char>>,
    op: ScanOp,
) -> ChargerInfoView {
    match op {
        ScanOp::Check => info,
        ScanOp::Int(node) => with_int(info, node, stable_int(nodes, node)),
        ScanOp::Text(node) => with_text(info, node, stable_text(nodes, node)),
    }
}

/// `info` after the operations from `i` on.
#[verifier::opaque]
spec fn from_op(info: ChargerInfoView, nodes: Map<Seq<char>, Seq<char>>, i: int) -> ChargerInfoView
    decreases SCAN_OPS - i,
{
    if i < 0 || i >= SCAN_OPS {
        info
    } else {
        from_op(op_applied(info, nodes, scan_op(i as usize)), nodes, i + 1)
    }
}

proof fn lemma_op(info: ChargerInfoView, nodes: Map<Seq<char>, Seq<char>>, i: int)
    requires
        0 <= i < SCAN_OPS,
    ensures
        from_op(info, nodes, i) == from_op(
            op_applied(info, nodes, scan_op(i as usize)),
            nodes,
            i + 1,
        ),
{
    reveal(from_op);
}

/// One operation of the scan.
proof fn step(
    info: ChargerInfoView,
    nodes: Map<Seq<char>, Seq<char>>,
    i: int,
    op: ScanOp,
) -> (next: ChargerInfoView)
    requires
        0 <= i < SCAN_OPS,
        scan_op(i as usize) == op,
    ensures
        next == op_applied(info, nodes, op),
        from_op(info, nodes, i) == from_op(next, nodes, i + 1),
{
    lemma_op(info, nodes, i);
    op_applied(info, nodes, op)
}

proof fn lemma_ops_end(info: ChargerInfoView, nodes: Map<Seq<char>, Seq<char>>)
    ensures
        from_op(info, nodes, SCAN_OPS as int) == info,
{
    reveal(from_op);
}

proof fn lemma_run_one(scan: ScanView, nodes: Map<Seq<char>, Seq<char>>, n: nat)
    requires
        n > 0,
    ensures
        run(scan, nodes, n) == run(answered(scan, nodes), nodes, (n - 1) as nat),
{
    reveal(run);
}

proof fn lemma_run_nodes(
    info: ChargerInfoView,
    nodes: Map<Seq<char>, Seq<char>>,
    i: int,
    n: nat,
)
    requires
        0 <= i < SCAN_OPS,
        n >= SCAN_OPS - i,
    ensures
        run(ScanView { info, stage: ScanStage::Nodes(i as usize) }, nodes, n) == run(
            nodes_done(from_op(info, nodes, i)),
            nodes,
            (n - (SCAN_OPS - i)) as nat,
        ),
    decreases SCAN_OPS - i,
{
    let scan = ScanView { info, stage: ScanStage::Nodes(i as usize) };
    let next_info = op_applied(info, nodes, scan_op(i as usize));
    lemma_op(info, nodes, i);
    assert(answered(scan, nodes) == after_op(next_info, i as usize));
    lemma_run_one(scan, nodes, n);
    if i + 1 < SCAN_OPS {
        lemma_run_nodes(next_info, nodes, i + 1, (n - 1) as nat);
    } else {
        lemma_ops_end(next_info, nodes);
    }
}

proof fn lemma_finished_stays(scan: ScanView, nodes: Map<Seq<char>, Seq<char>>, n: nat)
    requires
        scan.stage is Finished,
    ensures
        run(scan, nodes, n) == scan,
    decreases n,
{
    reveal(run);
    if n > 0 {
        lemma_finished_stays(scan, nodes, (n - 1) as nat);
    }
}

/// A recheck after `left` further readings that all give `power_w`.
spec fn after_readings(recheck: PowerRecheck, power_w: i32, left: nat) -> PowerRecheck
    decreases left,
{
    if left == 0 {
        recheck
    } else {
        after_readings(recheck.with_power(power_w), power_w, (left - 1) as nat)
    }
}

proof fn lemma_run_settled(info: ChargerInfoView, nodes: Map<Seq<char>, Seq<char>>, n: nat)
    requires
        n >= 1,
    ensures
        run(ScanView { info, stage: ScanStage::Settled }, nodes, n) == (ScanView {
            info: classified(info),
            stage: ScanStage::Finished(true),
        }),
{
    let scan = ScanView { info, stage: ScanStage::Settled };
    lemma_run_one(scan, nodes, n);
    lemma_finished_stays(answered(scan, nodes), nodes, (n - 1) as nat);
}

proof fn lemma_run_readings(
    info: ChargerInfoView,
    nodes: Map<Seq<char>, Seq<char>>,
    recheck: PowerRecheck,
    n: nat,
)
    requires
        recheck.step matches RecheckStep::ReadPower(left) && left >= 1 && n >= 2 * left + 1,
    ensures
        run(rechecking(info, recheck), nodes, n) == (ScanView {
            info: classified(
                ChargerInfoView {
                    adapter_power_w: after_readings(
                        recheck,
                        direct_watts(stable_int(nodes, IntNode::AdapterPower)),
                        recheck.step->ReadPower_0 as nat,
                    ).best_power_w,
                    ..info
                },
            ),
            stage: ScanStage::Finished(true),
        }),
    decreases recheck.step->ReadPower_0,
{
    let again = direct_watts(stable_int(nodes, IntNode::AdapterPower));
    let left = recheck.step->ReadPower_0;
    let s0 = rechecking(info, recheck);
    let s1 = ScanView { info, stage: ScanStage::Recheck { recheck, waited: true } };
    let next = recheck.with_power(again);
    assert(answered(s0, nodes) == s1);
    assert(answered(s1, nodes) == rechecking(info, next));
    lemma_run_one(s0, nodes, n);
    lemma_run_one(s1, nodes, (n - 1) as nat);
    assert(after_readings(recheck, again, left as nat) == after_readings(
        next,
        again,
        (left - 1) as nat,
    ));
    if left > 1 {
        lemma_run_readings(info, nodes, next, (n - 2) as nat);
    } else {
        lemma_run_settled(
            ChargerInfoView { adapter_power_w: next.best_power_w, ..info },
            nodes,
            (n - 2) as nat,
        );
    }
}

proof fn lemma_run_typed(
    info: ChargerInfoView,
    nodes: Map<Seq<char>, Seq<char>>,
    recheck: PowerRecheck,
    n: nat,
)
    requires
        recheck.step is Done || recheck.step == RecheckStep::ReadPower(POWER_RECHECK_READS),
        n >= 7,
    ensures
        ({
            let again = direct_watts(stable_int(nodes, IntNode::AdapterPower));
            run(rechecking(info, recheck), nodes, n) == ScanView {
                info: classified(
                    ChargerInfoView {
                        adapter_power_w: recheck.with_power(again).with_power(again).with_power(
                            again,
                        ).best_power_w,
                        ..info
                    },
                ),
                stage: ScanStage::Finished(true),
            }
        }),
{
    if recheck.step is Done {
        lemma_run_settled(
            ChargerInfoView { adapter_power_w: recheck.best_power_w, ..info },
            nodes,
            n,
        );
    } else {
        reveal_with_fuel(after_readings, 4);
        lemma_run_readings(info, nodes, recheck, n);
    }
}

proof fn lemma_run_power(info: ChargerInfoView, nodes: Map<Seq<char>, Seq<char>>, n: nat)
    requires
        n >= 11,
    ensures
        run(ScanView { info, stage: ScanStage::AdapterPower }, nodes, n) == (ScanView {
            info: classified(
                ChargerInfoView { adapter_power_w: stable_power(info, nodes), ..info },
            ),
            stage: ScanStage::Finished(true),
        }),
{
    let s0 = ScanView { info, stage: ScanStage::AdapterPower };
    let direct = kept(stable_int(nodes, IntNode::AdapterPower), 0);
    let constant = kept(stable_int(nodes, IntNode::ConstantPower), 0);
    let again = direct_watts(stable_int(nodes, IntNode::AdapterPower));
    let later = kept_text(stable_text(nodes, TextNode::QuickChargeType), Seq::empty());
    let power = estimated_power(info, direct, constant);
    let s1 = ScanView { info, stage: ScanStage::Estimated(power) };
    let skipped: nat = if direct > 0 {
        1
    } else {
        2
    };
    lemma_run_one(s0, nodes, n);
    if direct > 0 {
        assert(answered(s0, nodes) == s1);
    } else {
        let constant_stage = ScanView { info, stage: ScanStage::ConstantPower };
        assert(answered(s0, nodes) == constant_stage);
        assert(answered(constant_stage, nodes) == s1);
        lemma_run_one(constant_stage, nodes, (n - 1) as nat);
    }
    assert(run(s0, nodes, n) == run(s1, nodes, (n - skipped) as nat));
    let started = recheck_start(power, info.quick_charge_type);
    let s2 = rechecking(info, started);
    let m = (n - skipped - 1) as nat;
    assert(answered(s1, nodes) == s2);
    lemma_run_one(s1, nodes, (n - skipped) as nat);
    let typed = recheck_typed(power, info.quick_charge_type, later);
    recheck_takes_the_highest_power(
        power,
        info.quick_charge_type,
        later,
        (again, again, again),
    );
    if started.step is ReadType {
        assert(answered(s2, nodes) == rechecking(info, typed));
        lemma_run_one(s2, nodes, m);
        lemma_run_typed(info, nodes, typed, (m - 1) as nat);
    } else {
        lemma_run_typed(info, nodes, typed, m);
    }
}

proof fn lemma_text_is_not_empty(offered: Seq<Option<Seq<char>>>)
    ensures
        first_node_text(offered) matches Some(t) ==> t.len() > 0,
    decreases offered.len(),
{
    if offered.len() > 0 {
        lemma_text_is_not_empty(offered.drop_first());
    }
}

spec fn part_1(
    info: ChargerInfoView,
    nodes: Map<Seq<char>, Seq<char>>,
) -> ChargerInfoView {
    ChargerInfoView {
        usb_online: kept(stable_int(nodes, IntNode::UsbOnline), info.usb_online),
        usb_type: kept_text(stable_text(nodes, TextNode::UsbType), info.usb_type),
        ac_online: kept(stable_int(nodes, IntNode::AcOnline), info.ac_online),
        wireless_online: kept(stable_int(nodes, IntNode::WirelessOnline), info.wireless_online),
        wireless_type: kept_text(stable_text(nodes, TextNode::WirelessType), info.wireless_type),
        ..info
    }
}

proof fn lemma_order_1()
    ensures
        scan_op(0) == ScanOp::Check,
        scan_op(1) == ScanOp::Int(IntNode::UsbOnline),
        scan_op(2) == ScanOp::Text(TextNode::UsbType),
        scan_op(3) == ScanOp::Int(IntNode::AcOnline),
        scan_op(4) == ScanOp::Int(IntNode::WirelessOnline),
        scan_op(5) == ScanOp::Text(TextNode::WirelessType),
{
    reveal(scan_op);
}

proof fn lemma_part_1(info: ChargerInfoView, nodes: Map<Seq<char>, Seq<char>>)
    ensures
        from_op(info, nodes, 0) == from_op(part_1(info, nodes), nodes, 6),
{
    lemma_order_1();
    step(info, nodes, 0, ScanOp::Check);
    let x1 = step(info, nodes, 1, ScanOp::Int(IntNode::UsbOnline));
    let x2 = step(x1, nodes, 2, ScanOp::Text(TextNode::UsbType));
    let x3 = step(x2, nodes, 3, ScanOp::Int(IntNode::AcOnline));
    let x4 = step(x3, nodes, 4, ScanOp::Int(IntNode::WirelessOnline));
    let x5 = step(x4, nodes, 5, ScanOp::Text(TextNode::WirelessType));
    assert(x5 =~= part_1(info, nodes)) by {
        reveal(with_int);
        reveal(with_text);
    }
}

spec fn part_2(
    info: ChargerInfoView,
    nodes: Map<Seq<char>, Seq<char>>,
) -> ChargerInfoView {
    ChargerInfoView {
        usb_type: kept_text(stable_text(nodes, TextNode::UsbRealType), info.usb_type),
        usb_real_type: kept_text(stable_text(nodes, TextNode::UsbRealType), Seq::empty()),
        usb_voltage_now: nonzero_or(
            kept(stable_int(nodes, IntNode::UsbVoltageNow), info.usb_voltage_now),
            kept(stable_int(nodes, IntNode::CpBusVoltage), info.cp_bus_voltage),
        ),
        usb_current_now: nonzero_or(
            kept(stable_int(nodes, IntNode::UsbCurrentNow), info.usb_current_now),
            kept(stable_int(nodes, IntNode::CpBusCurrent), info.cp_bus_current),
        ),
        usb_temp: kept(stable_int(nodes, IntNode::UsbTemp), info.usb_temp),
        connector_temp: kept(stable_int(nodes, IntNode::ConnectorTemp), info.connector_temp),
        typec_mode: kept_text(stable_text(nodes, TextNode::TypecMode), info.typec_mode),
        cc_orientation: kept(stable_int(nodes, IntNode::CcOrientation), info.cc_orientation),
        cp_bus_voltage: kept(stable_int(nodes, IntNode::CpBusVoltage), info.cp_bus_voltage),
        cp_bus_current: kept(stable_int(nodes, IntNode::CpBusCurrent), info.cp_bus_current),
        ..info
    }
}

proof fn lemma_order_2()
    ensures
        scan_op(6) == ScanOp::Check,
        scan_op(7) == ScanOp::Int(IntNode::UsbVoltageNow),
        scan_op(8) == ScanOp::Int(IntNode::CpBusVoltage),
        scan_op(9) == ScanOp::Int(IntNode::CpBusCurrent),
        scan_op(10) == ScanOp::Int(IntNode::UsbCurrentNow),
        scan_op(11) == ScanOp::Int(IntNode::UsbTemp),
        scan_op(12) == ScanOp::Int(IntNode::ConnectorTemp),
        scan_op(13) == ScanOp::Text(TextNode::UsbRealType),
        scan_op(14) == ScanOp::Text(TextNode::TypecMode),
        scan_op(15) == ScanOp::Int(IntNode::CcOrientation),
{
    reveal(scan_op);
}

proof fn lemma_part_2(info: ChargerInfoView, nodes: Map<Seq<char>, Seq<char>>)
    ensures
        from_op(info, nodes, 6) == from_op(part_2(info, nodes), nodes, 16),
{
    lemma_order_2();
    reveal(stable_text);
    lemma_text_is_not_empty(
        TextNode::UsbRealType.spec_paths().map_values(
            |path: Seq<char>| contents_at(nodes, path),
        ),
    );
    step(info, nodes, 6, ScanOp::Check);
    let x1 = step(info, nodes, 7, ScanOp::Int(IntNode::UsbVoltageNow));
    let x2 = step(x1, nodes, 8, ScanOp::Int(IntNode::CpBusVoltage));
    let x3 = step(x2, nodes, 9, ScanOp::Int(IntNode::CpBusCurrent));
    let x4 = step(x3, nodes, 10, ScanOp::Int(IntNode::UsbCurrentNow));
    let x5 = step(x4, nodes, 11, ScanOp::Int(IntNode::UsbTemp));
    let x6 = step(x5, nodes, 12, ScanOp::Int(IntNode::ConnectorTemp));
    let x7 = step(x6, nodes, 13, ScanOp::Text(TextNode::UsbRealType));
    let x8 = step(x7, nodes, 14, ScanOp::Text(TextNode::TypecMode));
    let x9 = step(x8, nodes, 15, ScanOp::Int(IntNode::CcOrientation));
    assert(x9 =~= part_2(info, nodes)) by {
        reveal(with_int);
        reveal(with_text);
    }
}

spec fn part_3(
    info: ChargerInfoView,
    nodes: Map<Seq<char>, Seq<char>>,
) -> ChargerInfoView {
    ChargerInfoView {
        battery_status: kept_text(stable_text(nodes, TextNode::BatteryStatus), info.battery_status),
        battery_health: kept_text(stable_text(nodes, TextNode::BatteryHealth), info.battery_health),
        battery_capacity: match stable_int(nodes, IntNode::BatteryCapacity) {
            Some(v) => capacity_percent(v),
            None => info.battery_capacity,
        },
        battery_temp: kept(stable_int(nodes, IntNode::BatteryTemp), info.battery_temp),
        battery_current_now: kept(
            stable_int(nodes, IntNode::BatteryCurrentNow),
            info.battery_current_now,
        ),
        battery_voltage_now: kept(
            stable_int(nodes, IntNode::BatteryVoltageNow),
            info.battery_voltage_now,
        ),
        battery_charge_type: kept_text(
            stable_text(nodes, TextNode::BatteryChargeType),
            info.battery_charge_type,
        ),
        battery_technology: kept_text(
            stable_text(nodes, TextNode::BatteryTechnology),
            info.battery_technology,
        ),
        ..info
    }
}

proof fn lemma_order_3()
    ensures
        scan_op(16) == ScanOp::Check,
        scan_op(17) == ScanOp::Text(TextNode::BatteryStatus),
        scan_op(18) == ScanOp::Text(TextNode::BatteryHealth),
        scan_op(19) == ScanOp::Int(IntNode::BatteryTemp),
        scan_op(20) == ScanOp::Int(IntNode::BatteryCurrentNow),
        scan_op(21) == ScanOp::Int(IntNode::BatteryVoltageNow),
        scan_op(22) == ScanOp::Text(TextNode::BatteryChargeType),
        scan_op(23) == ScanOp::Text(TextNode::BatteryTechnology),
        scan_op(24) == ScanOp::Int(IntNode::BatteryCapacity),
{
    reveal(scan_op);
}

proof fn lemma_part_3(info: ChargerInfoView, nodes: Map<Seq<char>, Seq<char>>)
    ensures
        from_op(info, nodes, 16) == from_op(part_3(info, nodes), nodes, 25),
{
    lemma_order_3();
    step(info, nodes, 16, ScanOp::Check);
    let x1 = step(info, nodes, 17, ScanOp::Text(TextNode::BatteryStatus));
    let x2 = step(x1, nodes, 18, ScanOp::Text(TextNode::BatteryHealth));
    let x3 = step(x2, nodes, 19, ScanOp::Int(IntNode::BatteryTemp));
    let x4 = step(x3, nodes, 20, ScanOp::Int(IntNode::BatteryCurrentNow));
    let x5 = step(x4, nodes, 21, ScanOp::Int(IntNode::BatteryVoltageNow));
    let x6 = step(x5, nodes, 22, ScanOp::Text(TextNode::BatteryChargeType));
    let x7 = step(x6, nodes, 23, ScanOp::Text(TextNode::BatteryTechnology));
    let x8 = step(x7, nodes, 24, ScanOp::Int(IntNode::BatteryCapacity));
    assert(x8 =~= part_3(info, nodes)) by {
        reveal(with_int);
        reveal(with_text);
    }
}

spec fn part_4(
    info: ChargerInfoView,
    nodes: Map<Seq<char>, Seq<char>>,
) -> ChargerInfoView {
    ChargerInfoView {
        charge_full: kept(stable_int(nodes, IntNode::ChargeFull), 0),
        charge_full_design: nonzero_or(
            kept(stable_int(nodes, IntNode::ChargeFullDesign), 0),
            kept(stable_int(nodes, IntNode::ChargeFull), 0),
        ),
        charge_counter: nonzero_or(
            kept(stable_int(nodes, IntNode::ChargeCounter), 0),
            kept(stable_int(nodes, IntNode::FgRm), 0),
        ),
        cycle_count: kept(stable_int(nodes, IntNode::CycleCount), 0),
        fg_fcc: kept(stable_int(nodes, IntNode::FgFcc), 0),
        fg_rm: kept(stable_int(nodes, IntNode::FgRm), 0),
        fg_rsoc: kept(stable_int(nodes, IntNode::FgRsoc), 0),
        fg_soh: kept(stable_int(nodes, IntNode::FgSoh), 0),
        fg_cycle: kept(stable_int(nodes, IntNode::FgCycle), 0),
        fg_qmax: kept(stable_int(nodes, IntNode::FgQmax), 0),
        fg_ai: kept(stable_int(nodes, IntNode::FgAi), 0),
        fg_avg_current: kept(stable_int(nodes, IntNode::FgAvgCurrent), 0),
        fg_vendor: kept_text(stable_text(nodes, TextNode::FgVendor), Seq::empty()),
        battery_type: kept_text(stable_text(nodes, TextNode::BatteryType), Seq::empty()),
        gauge_type: kept_text(stable_text(nodes, TextNode::FgVendor), Seq::empty()),
        gauge_info: Seq::empty(),
        ..info
    }
}

proof fn lemma_order_4()
    ensures
        scan_op(25) == ScanOp::Check,
        scan_op(26) == ScanOp::Int(IntNode::FgFcc),
        scan_op(27) == ScanOp::Int(IntNode::ChargeFull),
        scan_op(28) == ScanOp::Int(IntNode::FgRm),
        scan_op(29) == ScanOp::Int(IntNode::FgRsoc),
        scan_op(30) == ScanOp::Int(IntNode::FgCycle),
        scan_op(31) == ScanOp::Int(IntNode::FgSoh),
        scan_op(32) == ScanOp::Int(IntNode::FgQmax),
        scan_op(33) == ScanOp::Int(IntNode::FgAi),
        scan_op(34) == ScanOp::Int(IntNode::FgAvgCurrent),
        scan_op(35) == ScanOp::Text(TextNode::FgVendor),
        scan_op(36) == ScanOp::Text(TextNode::BatteryType),
        scan_op(37) == ScanOp::Int(IntNode::ChargeFullDesign),
        scan_op(38) == ScanOp::Int(IntNode::ChargeCounter),
        scan_op(39) == ScanOp::Int(IntNode::CycleCount),
{
    reveal(scan_op);
}

proof fn lemma_part_4(info: ChargerInfoView, nodes: Map<Seq<char>, Seq<char>>)
    ensures
        from_op(info, nodes, 25) == from_op(part_4(info, nodes), nodes, 40),
{
    lemma_order_4();
    step(info, nodes, 25, ScanOp::Check);
    let x1 = step(info, nodes, 26, ScanOp::Int(IntNode::FgFcc));
    let x2 = step(x1, nodes, 27, ScanOp::Int(IntNode::ChargeFull));
    let x3 = step(x2, nodes, 28, ScanOp::Int(IntNode::FgRm));
    let x4 = step(x3, nodes, 29, ScanOp::Int(IntNode::FgRsoc));
    let x5 = step(x4, nodes, 30, ScanOp::Int(IntNode::FgCycle));
    let x6 = step(x5, nodes, 31, ScanOp::Int(IntNode::FgSoh));
    let x7 = step(x6, nodes, 32, ScanOp::Int(IntNode::FgQmax));
    let x8 = step(x7, nodes, 33, ScanOp::Int(IntNode::FgAi));
    let x9 = step(x8, nodes, 34, ScanOp::Int(IntNode::FgAvgCurrent));
    let x10 = step(x9, nodes, 35, ScanOp::Text(TextNode::FgVendor));
    let x11 = step(x10, nodes, 36, ScanOp::Text(TextNode::BatteryType));
    let x12 = step(x11, nodes, 37, ScanOp::Int(IntNode::ChargeFullDesign));
    let x13 = step(x12, nodes, 38, ScanOp::Int(IntNode::ChargeCounter));
    let x14 = step(x13, nodes, 39, ScanOp::Int(IntNode::CycleCount));
    assert(x14 =~= part_4(info, nodes)) by {
        reveal(with_int);
        reveal(with_text);
    }
}

spec fn part_5(
    info: ChargerInfoView,
    nodes: Map<Seq<char>, Seq<char>>,
) -> ChargerInfoView {
    ChargerInfoView {
        cell1_vol: kept(stable_int(nodes, IntNode::Cell1Vol), 0),
        cell2_vol: kept(stable_int(nodes, IntNode::Cell2Vol), 0),
        cell1_rascale: kept(stable_int(nodes, IntNode::Cell1Rascale), 0),
        quick_charge_type: kept_text(stable_text(nodes, TextNode::QuickChargeType), Seq::empty()),
        pd_verified: kept(stable_int(nodes, IntNode::PdVerified), 0),
        input_current_max: kept(stable_int(nodes, IntNode::InputCurrentMax), 0),
        input_voltage_max: kept(stable_int(nodes, IntNode::InputVoltageMax), 0),
        input_current_settled: kept(stable_int(nodes, IntNode::InputCurrentSettled), 0),
        input_voltage_settled: kept(stable_int(nodes, IntNode::InputVoltageSettled), 0),
        fastchg_mode: kept(stable_int(nodes, IntNode::FastchgMode), 0),
        current_state: kept_text(stable_text(nodes, TextNode::CurrentState), Seq::empty()),
        sport_mode: kept(stable_int(nodes, IntNode::SportMode), 0),
        ..info
    }
}

proof fn lemma_order_5()
    ensures
        scan_op(40) == ScanOp::Check,
        scan_op(41) == ScanOp::Int(IntNode::Cell1Vol),
        scan_op(42) == ScanOp::Int(IntNode::Cell2Vol),
        scan_op(43) == ScanOp::Int(IntNode::Cell1Rascale),
        scan_op(44) == ScanOp::Int(IntNode::InputCurrentMax),
        scan_op(45) == ScanOp::Int(IntNode::InputVoltageMax),
        scan_op(46) == ScanOp::Int(IntNode::InputCurrentSettled),
        scan_op(47) == ScanOp::Int(IntNode::InputVoltageSettled),
        scan_op(48) == ScanOp::Int(IntNode::FastchgMode),
        scan_op(49) == ScanOp::Text(TextNode::CurrentState),
        scan_op(50) == ScanOp::Int(IntNode::SportMode),
        scan_op(51) == ScanOp::Text(TextNode::QuickChargeType),
        scan_op(52) == ScanOp::Int(IntNode::PdVerified),
{
    reveal(scan_op);
}

proof fn lemma_part_5(info: ChargerInfoView, nodes: Map<Seq<char>, Seq<char>>)
    ensures
        from_op(info, nodes, 40) == from_op(part_5(info, nodes), nodes, 53),
{
    lemma_order_5();
    step(info, nodes, 40, ScanOp::Check);
    let x1 = step(info, nodes, 41, ScanOp::Int(IntNode::Cell1Vol));
    let x2 = step(x1, nodes, 42, ScanOp::Int(IntNode::Cell2Vol));
    let x3 = step(x2, nodes, 43, ScanOp::Int(IntNode::Cell1Rascale));
    let x4 = step(x3, nodes, 44, ScanOp::Int(IntNode::InputCurrentMax));
    let x5 = step(x4, nodes, 45, ScanOp::Int(IntNode::InputVoltageMax));
    let x6 = step(x5, nodes, 46, ScanOp::Int(IntNode::InputCurrentSettled));
    let x7 = step(x6, nodes, 47, ScanOp::Int(IntNode::InputVoltageSettled));
    let x8 = step(x7, nodes, 48, ScanOp::Int(IntNode::FastchgMode));
    let x9 = step(x8, nodes, 49, ScanOp::Text(TextNode::CurrentState));
    let x10 = step(x9, nodes, 50, ScanOp::Int(IntNode::SportMode));
    let x11 = step(x10, nodes, 51, ScanOp::Text(TextNode::QuickChargeType));
    let x12 = step(x11, nodes, 52, ScanOp::Int(IntNode::PdVerified));
    assert(x12 =~= part_5(info, nodes)) by {
        reveal(with_int);
        reveal(with_text);
    }
}

spec fn part_6(
    info: ChargerInfoView,
    nodes: Map<Seq<char>, Seq<char>>,
) -> ChargerInfoView {
    ChargerInfoView {
        cp_online: kept(stable_int(nodes, IntNode::CpOnline), 0),
        cp_status: kept_text(stable_text(nodes, TextNode::CpStatus), Seq::empty()),
        cp_master_iin: kept(stable_int(nodes, IntNode::CpMasterIin), 0),
        cp_slave_iin: kept(stable_int(nodes, IntNode::CpSlaveIin), 0),
        remaining_time: kept(stable_int(nodes, IntNode::RemainingTime), 0),
        restrict_chg: kept(stable_int(nodes, IntNode::RestrictChg), 0),
        input_suspend: kept(stable_int(nodes, IntNode::InputSuspend), 0),
        smart_chg: kept(stable_int(nodes, IntNode::SmartChg), 0),
        night_charging: kept(stable_int(nodes, IntNode::NightCharging), 0),
        smart_batt: kept(stable_int(nodes, IntNode::SmartBatt), 0),
        ..info
    }
}

proof fn lemma_order_6()
    ensures
        scan_op(53) == ScanOp::Check,
        scan_op(54) == ScanOp::Int(IntNode::CpOnline),
        scan_op(55) == ScanOp::Text(TextNode::CpStatus),
        scan_op(56) == ScanOp::Int(IntNode::CpMasterIin),
        scan_op(57) == ScanOp::Int(IntNode::CpSlaveIin),
        scan_op(58) == ScanOp::Int(IntNode::RemainingTime),
        scan_op(59) == ScanOp::Int(IntNode::RestrictChg),
        scan_op(60) == ScanOp::Int(IntNode::InputSuspend),
        scan_op(61) == ScanOp::Int(IntNode::SmartChg),
        scan_op(62) == ScanOp::Int(IntNode::NightCharging),
        scan_op(63) == ScanOp::Int(IntNode::SmartBatt),
{
    reveal(scan_op);
}

proof fn lemma_part_6(info: ChargerInfoView, nodes: Map<Seq<char>, Seq<char>>)
    ensures
        from_op(info, nodes, 53) == from_op(part_6(info, nodes), nodes, 64),
{
    lemma_order_6();
    step(info, nodes, 53, ScanOp::Check);
    let x1 = step(info, nodes, 54, ScanOp::Int(IntNode::CpOnline));
    let x2 = step(x1, nodes, 55, ScanOp::Text(TextNode::CpStatus));
    let x3 = step(x2, nodes, 56, ScanOp::Int(IntNode::CpMasterIin));
    let x4 = step(x3, nodes, 57, ScanOp::Int(IntNode::CpSlaveIin));
    let x5 = step(x4, nodes, 58, ScanOp::Int(IntNode::RemainingTime));
    let x6 = step(x5, nodes, 59, ScanOp::Int(IntNode::RestrictChg));
    let x7 = step(x6, nodes, 60, ScanOp::Int(IntNode::InputSuspend));
    let x8 = step(x7, nodes, 61, ScanOp::Int(IntNode::SmartChg));
    let x9 = step(x8, nodes, 62, ScanOp::Int(IntNode::NightCharging));
    let x10 = step(x9, nodes, 63, ScanOp::Int(IntNode::SmartBatt));
    assert(x10 =~= part_6(info, nodes)) by {
        reveal(with_int);
        reveal(with_text);
    }
}

spec fn part_7(
    info: ChargerInfoView,
    nodes: Map<Seq<char>, Seq<char>>,
) -> ChargerInfoView {
    ChargerInfoView {
        die_temperature: kept(stable_int(nodes, IntNode::DieTemperature), 0),
        slave_die_temperature: kept(stable_int(nodes, IntNode::SlaveDieTemperature), 0),
        thermal_board_temp: kept(stable_int(nodes, IntNode::ThermalBoardTemp), 0),
        batt_sn: kept_text(stable_text(nodes, TextNode::BattSn), Seq::empty()),
        authentic: 1,
        batt_cont_online: kept(stable_int(nodes, IntNode::BattContOnline), 0),
        max_life_temp: kept(stable_int(nodes, IntNode::MaxLifeTemp), 0),
        max_life_vol: kept(stable_int(nodes, IntNode::MaxLifeVol), 0),
        over_vol_duration: kept(stable_int(nodes, IntNode::OverVolDuration), 0),
        moisture_detected: kept(stable_int(nodes, IntNode::MoistureStatus), 0) != 0,
        ..info
    }
}

proof fn lemma_order_7()
    ensures
        scan_op(64) == ScanOp::Check,
        scan_op(65) == ScanOp::Int(IntNode::DieTemperature),
        scan_op(66) == ScanOp::Int(IntNode::SlaveDieTemperature),
        scan_op(67) == ScanOp::Int(IntNode::ThermalBoardTemp),
        scan_op(68) == ScanOp::Text(TextNode::BattSn),
        scan_op(69) == ScanOp::Int(IntNode::BattContOnline),
        scan_op(70) == ScanOp::Int(IntNode::MaxLifeTemp),
        scan_op(71) == ScanOp::Int(IntNode::MaxLifeVol),
        scan_op(72) == ScanOp::Int(IntNode::OverVolDuration),
        scan_op(73) == ScanOp::Int(IntNode::MoistureStatus),
{
    reveal(scan_op);
}

proof fn lemma_part_7(info: ChargerInfoView, nodes: Map<Seq<char>, Seq<char>>)
    ensures
        from_op(info, nodes, 64) == from_op(part_7(info, nodes), nodes, 74),
{
    lemma_order_7();
    step(info, nodes, 64, ScanOp::Check);
    let x1 = step(info, nodes, 65, ScanOp::Int(IntNode::DieTemperature));
    let x2 = step(x1, nodes, 66, ScanOp::Int(IntNode::SlaveDieTemperature));
    let x3 = step(x2, nodes, 67, ScanOp::Int(IntNode::ThermalBoardTemp));
    let x4 = step(x3, nodes, 68, ScanOp::Text(TextNode::BattSn));
    let x5 = step(x4, nodes, 69, ScanOp::Int(IntNode::BattContOnline));
    let x6 = step(x5, nodes, 70, ScanOp::Int(IntNode::MaxLifeTemp));
    let x7 = step(x6, nodes, 71, ScanOp::Int(IntNode::MaxLifeVol));
    let x8 = step(x7, nodes, 72, ScanOp::Int(IntNode::OverVolDuration));
    let x9 = step(x8, nodes, 73, ScanOp::Int(IntNode::MoistureStatus));
    assert(x9 =~= part_7(info, nodes)) by {
        reveal(with_int);
        reveal(with_text);
    }
}

spec fn part_8(
    info: ChargerInfoView,
    nodes: Map<Seq<char>, Seq<char>>,
) -> ChargerInfoView {
    ChargerInfoView {
        pc_port_online: kept(stable_int(nodes, IntNode::PcPortOnline), 0),
        flash_active: kept(stable_int(nodes, IntNode::FlashActive), 0) != 0,
        hifi_connect: kept(stable_int(nodes, IntNode::HifiConnect), 0) != 0,
        vbus_disable: kept(stable_int(nodes, IntNode::VbusDisable), 0) != 0,
        otg_ui_support: kept(stable_int(nodes, IntNode::OtgUiSupport), 0),
        fake_soc: kept(stable_int(nodes, IntNode::FakeSoc), 0),
        fake_soh: kept(stable_int(nodes, IntNode::FakeSoh), 0),
        fake_cycle: kept(stable_int(nodes, IntNode::FakeCycle), 0),
        fake_temp: kept(stable_int(nodes, IntNode::FakeTemp), 0),
        ..info
    }
}

proof fn lemma_order_8()
    ensures
        scan_op(74) == ScanOp::Check,
        scan_op(75) == ScanOp::Int(IntNode::FlashActive),
        scan_op(76) == ScanOp::Int(IntNode::HifiConnect),
        scan_op(77) == ScanOp::Int(IntNode::VbusDisable),
        scan_op(78) == ScanOp::Int(IntNode::OtgUiSupport),
        scan_op(79) == ScanOp::Int(IntNode::FakeSoc),
        scan_op(80) == ScanOp::Int(IntNode::FakeSoh),
        scan_op(81) == ScanOp::Int(IntNode::FakeCycle),
        scan_op(82) == ScanOp::Int(IntNode::FakeTemp),
        scan_op(83) == ScanOp::Int(IntNode::PcPortOnline),
{
    reveal(scan_op);
}

proof fn lemma_part_8(info: ChargerInfoView, nodes: Map<Seq<char>, Seq<char>>)
    ensures
        from_op(info, nodes, 74) == from_op(part_8(info, nodes), nodes, 84),
{
    lemma_order_8();
    step(info, nodes, 74, ScanOp::Check);
    let x1 = step(info, nodes, 75, ScanOp::Int(IntNode::FlashActive));
    let x2 = step(x1, nodes, 76, ScanOp::Int(IntNode::HifiConnect));
    let x3 = step(x2, nodes, 77, ScanOp::Int(IntNode::VbusDisable));
    let x4 = step(x3, nodes, 78, ScanOp::Int(IntNode::OtgUiSupport));
    let x5 = step(x4, nodes, 79, ScanOp::Int(IntNode::FakeSoc));
    let x6 = step(x5, nodes, 80, ScanOp::Int(IntNode::FakeSoh));
    let x7 = step(x6, nodes, 81, ScanOp::Int(IntNode::FakeCycle));
    let x8 = step(x7, nodes, 82, ScanOp::Int(IntNode::FakeTemp));
    let x9 = step(x8, nodes, 83, ScanOp::Int(IntNode::PcPortOnline));
    assert(x9 =~= part_8(info, nodes)) by {
        reveal(with_int);
        reveal(with_text);
    }
}

proof fn lemma_nodes_give(info: ChargerInfoView, nodes: Map<Seq<char>, Seq<char>>)
    ensures
        from_op(info, nodes, 0) == read_info(info, nodes),
{
    lemma_part_1(info, nodes);
    let i1 = part_1(info, nodes);
    lemma_part_2(i1, nodes);
    let i2 = part_2(i1, nodes);
    lemma_part_3(i2, nodes);
    let i3 = part_3(i2, nodes);
    lemma_part_4(i3, nodes);
    let i4 = part_4(i3, nodes);
    lemma_part_5(i4, nodes);
    let i5 = part_5(i4, nodes);
    lemma_part_6(i5, nodes);
    let i6 = part_6(i5, nodes);
    lemma_part_7(i6, nodes);
    let i7 = part_7(i6, nodes);
    lemma_part_8(i7, nodes);
    let i8 = part_8(i7, nodes);
    assert(scan_op(84) == ScanOp::Check) by {
        reveal(scan_op);
    }
    lemma_op(i8, nodes, 84);
    lemma_ops_end(i8, nodes);
    assert(i8 =~= read_info(info, nodes));
}

/// The most requests that a scan makes.
pub const SCAN_REQUESTS: usize = 96;

/// A scan that is never given up, over nodes that hold still, ends after a
/// bounded number of requests, and its result is [`scanned`].
pub proof fn uncancelled_scan_completes(
    info: ChargerInfoView,
    nodes: Map<Seq<char>, Seq<char>>,
    n: nat,
)
    requires
        n >= SCAN_REQUESTS,
    ensures
        run(scan_start(info), nodes, n) == (ScanView {
            info: scanned(info, nodes),
            stage: ScanStage::Finished(true),
        }),
{
    reveal(nodes_done);
    lemma_run_nodes(info, nodes, 0, n);
    lemma_nodes_give(info, nodes);
    let read = read_info(info, nodes);
    let rest = (n - SCAN_OPS) as nat;
    if !read.online() || fast_inputs_of(read).on_data_port() {
        lemma_finished_stays(nodes_done(read), nodes, rest);
    } else {
        lemma_run_power(read, nodes, rest);
    }
}

} // verus!
