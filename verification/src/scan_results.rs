//! What holds of a scan whatever its nodes read and whenever it is given up.

use crate::classify::{
    charge_state_of, charge_technology_of, estimated_power, estimates_are_not_negative,
    fast_inputs_of, fast_type_text, quick_charge_level, remaining_seconds, technology_text,
};
use crate::info::{ChargeState, ChargerInfoView};
use crate::nodes::{
    first_node_int, first_node_text, found_int_decides, found_text_decides,
    lemma_first_node_int_push, IntNode, TextNode,
};
use crate::readings::{capacity_stays_in_percent, with_int, with_text};
use crate::recheck::{PowerRecheck, RecheckStep};
use crate::scan::{
    after_op, classified, direct_watts, evidence_cleared, fast_type_text_reads_back, nodes_done,
    scan_op, session_cleared, stage_request, ScanRequest, ScanStage, ScanView,
};
use crate::scan_laws::{contents_at, stable_int, stable_text};
use crate::snapshot::{data_port_type, snapshot_of};
use crate::text::{
    contains_text, decimal_text_is_trimmed, decimal_text_reads_back, int_text, lower_text, trimmed,
};
use crate::units::watts_from_reading;
use vstd::prelude::*;

verus! {

/// What is derived from the readings agrees with them.
pub open spec fn derived_agrees(info: ChargerInfoView) -> bool {
    let fast_type = fast_inputs_of(info).fast_type();
    &&& info.fast_charge_type == int_text(fast_type as int)
    &&& info.charge_technology == int_text(
        charge_technology_of(info.quick_charge_type, fast_type) as int,
    )
    &&& info.charge_state == charge_state_of(info)
    &&& info.remaining_time >= 0
}

pub(crate) proof fn lemma_classified_agrees(info: ChargerInfoView)
    ensures
        derived_agrees(classified(info)),
{
    reveal(classified);
    estimates_are_not_negative(info, 0, 0);
    assert(fast_inputs_of(classified(info)) =~= fast_inputs_of(info));
}

proof fn lemma_after_op_agrees(info: ChargerInfoView, i: usize)
    ensures
        ({
            let next = after_op(info, i);
            next.stage == ScanStage::Finished(true) ==> derived_agrees(next.info)
        }),
{
    reveal(nodes_done);
    lemma_classified_agrees(session_cleared(info));
    lemma_classified_agrees(evidence_cleared(info));
}

/// Whichever answer completes a scan, what is derived then agrees with the
/// readings.
pub proof fn completed_scan_agrees(
    scan: ScanView,
    cancel: bool,
    int_reading: Option<i32>,
    text_reading: Option<Seq<char>>,
)
    requires
        scan.stage !is Finished,
    ensures
        ({
            let completed = ScanStage::Finished(true);
            &&& scan.checked(cancel).stage == completed ==> derived_agrees(
                scan.checked(cancel).info,
            )
            &&& scan.int_read(int_reading).stage == completed ==> derived_agrees(
                scan.int_read(int_reading).info,
            )
            &&& scan.text_read(text_reading).stage == completed ==> derived_agrees(
                scan.text_read(text_reading).info,
            )
            &&& scan.after_wait().stage != completed
        }),
{
    lemma_classified_agrees(scan.info);
    if let ScanStage::Nodes(i) = scan.stage {
        lemma_after_op_agrees(scan.info, i);
        lemma_after_op_agrees(with_int(scan.info, scan_op(i)->Int_0, int_reading), i);
        lemma_after_op_agrees(with_text(scan.info, scan_op(i)->Text_0, text_reading), i);
    }
}

/// The fast-charge type and the charge technology of a completed scan are those
/// of its snapshot.
pub proof fn snapshot_has_derived_types(info: ChargerInfoView)
    requires
        derived_agrees(info),
    ensures
        snapshot_of(info).fast_type == fast_inputs_of(info).fast_type(),
        snapshot_of(info).charge_tech == charge_technology_of(
            info.quick_charge_type,
            fast_inputs_of(info).fast_type(),
        ),
{
    let fast_type = fast_inputs_of(info).fast_type();
    fast_type_text_reads_back(fast_type);
    fast_type_text_reads_back(charge_technology_of(info.quick_charge_type, fast_type));
}

/// Nothing of a fast-charge session is left.
pub open spec fn session_gone(info: ChargerInfoView) -> bool {
    &&& info.usb_type.len() == 0
    &&& info.usb_real_type.len() == 0
    &&& info.quick_charge_type.len() == 0
    &&& info.pd_verified == 0
    &&& info.cp_online == 0
    &&& info.cp_status.len() == 0
    &&& info.cp_bus_voltage == 0
    &&& info.cp_bus_current == 0
    &&& info.cp_master_iin == 0
    &&& info.cp_slave_iin == 0
    &&& info.fastchg_mode == 0
    &&& info.sport_mode == 0
    &&& info.adapter_power_w == 0
    &&& info.fast_charge_type == "0"@
    &&& info.charge_technology == "0"@
}

/// No evidence of fast charging is left.
pub open spec fn evidence_gone(info: ChargerInfoView) -> bool {
    &&& info.quick_charge_type == "0"@
    &&& info.pd_verified == 0
    &&& info.cp_online == 0
    &&& info.cp_status.len() == 0
    &&& info.cp_master_iin == 0
    &&& info.cp_slave_iin == 0
    &&& info.fastchg_mode == 0
    &&& info.sport_mode == 0
    &&& info.adapter_power_w == 0
    &&& info.fast_charge_type == "0"@
    &&& info.charge_technology == "0"@
}

/// A power source is connected, and it is a data port.
pub open spec fn on_data_port(info: ChargerInfoView) -> bool {
    info.online() && fast_inputs_of(info).on_data_port()
}

proof fn lemma_cleared_types_have_no_level()
    ensures
        quick_charge_level(Seq::empty()) is None,
        quick_charge_level("0"@) is None,
        int_text(0) == "0"@,
{
    reveal_strlit("0");
    assert(int_text(0) =~= "0"@);
    decimal_text_reads_back(0);
    decimal_text_is_trimmed(0);
    reveal_strlit("Super");
    reveal_strlit("SUPER");
    reveal_strlit("Turbo");
    reveal_strlit("TURBO");
    reveal_strlit("Flash");
    reveal_strlit("FLASH");
    reveal_strlit("Fast");
    reveal_strlit("FAST");
}

/// Without a power source the scan ends once the nodes are read, and nothing of
/// a fast-charge session is left.
pub proof fn offline_scan_clears_session(info: ChargerInfoView)
    requires
        !info.online(),
    ensures
        ({
            let done = nodes_done(info);
            &&& done.stage == ScanStage::Finished(true)
            &&& !done.info.online()
            &&& session_gone(done.info)
            &&& done.info.charge_state == ChargeState::Disconnected
            &&& snapshot_of(done.info).fast_type == 0
            &&& snapshot_of(done.info).charge_tech == 0
        }),
{
    reveal(nodes_done);
    reveal(classified);
    let cleared = session_cleared(info);
    lemma_classified_agrees(cleared);
    assert(!fast_inputs_of(cleared).online);
    lemma_cleared_types_have_no_level();
    snapshot_has_derived_types(classified(cleared));
}

/// On a data port the scan ends once the nodes are read, and neither fast
/// charging nor power is shown.
pub proof fn data_port_scan_shows_no_fast_charge(info: ChargerInfoView)
    requires
        on_data_port(info),
    ensures
        ({
            let done = nodes_done(info);
            let snapshot = snapshot_of(done.info);
            &&& done.stage == ScanStage::Finished(true)
            &&& on_data_port(done.info)
            &&& evidence_gone(done.info)
            &&& done.info.charge_state == ChargeState::SlowCharging
            &&& snapshot.fast_type == 0
            &&& snapshot.charge_tech == 0
            &&& snapshot.on_data_port()
            &&& !snapshot.fast_charge() && !snapshot.svooc_active() && !snapshot.pps_active()
            &&& !snapshot.shows_power()
        }),
{
    reveal(nodes_done);
    reveal(classified);
    let cleared = evidence_cleared(info);
    lemma_classified_agrees(cleared);
    assert(fast_inputs_of(cleared).on_data_port());
    lemma_cleared_types_have_no_level();
    snapshot_has_derived_types(classified(cleared));
}

/// A scan that is given up is not completed, and reads nothing more.
pub proof fn given_up_scan_is_not_completed(scan: ScanView)
    ensures
        scan.checked(true).stage == ScanStage::Finished(false),
        scan.checked(true).info == scan.info,
{
}

/// Whatever a scan reads, the battery capacity stays between 0 and 100.
pub proof fn scans_keep_capacity_in_percent(
    scan: ScanView,
    cancel: bool,
    int_reading: Option<i32>,
    text_reading: Option<Seq<char>>,
)
    requires
        0 <= scan.info.battery_capacity <= 100,
    ensures
        0 <= scan.checked(cancel).info.battery_capacity <= 100,
        0 <= scan.int_read(int_reading).info.battery_capacity <= 100,
        0 <= scan.text_read(text_reading).info.battery_capacity <= 100,
        0 <= scan.after_wait().info.battery_capacity <= 100,
{
    reveal(nodes_done);
    reveal(classified);
    if let ScanStage::Nodes(i) = scan.stage {
        capacity_stays_in_percent(
            scan.info,
            scan_op(i)->Int_0,
            int_reading,
            scan_op(i)->Text_0,
            text_reading,
        );
    }
}

// ── nodes that hold still ──

/// An integer query that is settled over nodes that hold still has read them.
pub proof fn settled_int_query_reads_the_nodes(
    nodes: Map<Seq<char>, Seq<char>>,
    node: IntNode,
    offered: Seq<Option<Seq<char>>>,
)
    requires
        offered.len() <= node.spec_paths().len(),
        forall|i: int|
            0 <= i < offered.len() ==> #[trigger] offered[i] == contents_at(
                nodes,
                node.spec_paths()[i],
            ),
        first_node_int(offered, node.is_positive()) is Some || offered.len()
            == node.spec_paths().len(),
    ensures
        first_node_int(offered, node.is_positive()) == stable_int(nodes, node),
{
    reveal(stable_int);
    let all = node.spec_paths().map_values(|path: Seq<char>| contents_at(nodes, path));
    let rest = all.skip(offered.len() as int);
    assert(all =~= offered + rest);
    if offered.len() == all.len() {
        assert(all =~= offered);
    } else {
        found_int_decides(offered, rest, node.is_positive());
    }
}

/// A text query that is settled over nodes that hold still has read them.
pub proof fn settled_text_query_reads_the_nodes(
    nodes: Map<Seq<char>, Seq<char>>,
    node: TextNode,
    offered: Seq<Option<Seq<char>>>,
)
    requires
        offered.len() <= node.spec_paths().len(),
        forall|i: int|
            0 <= i < offered.len() ==> #[trigger] offered[i] == contents_at(
                nodes,
                node.spec_paths()[i],
            ),
        first_node_text(offered) is Some || offered.len() == node.spec_paths().len(),
    ensures
        first_node_text(offered) == stable_text(nodes, node),
{
    reveal(stable_text);
    let all = node.spec_paths().map_values(|path: Seq<char>| contents_at(nodes, path));
    let rest = all.skip(offered.len() as int);
    assert(all =~= offered + rest);
    if offered.len() == all.len() {
        assert(all =~= offered);
    } else {
        found_text_decides(offered, rest);
    }
}

/// The node of the static input-current limit is asked last: where any other
/// candidate gives the input current, what it holds does not matter.
pub proof fn static_limit_ranks_last(
    nodes: Map<Seq<char>, Seq<char>>,
    limit: Seq<char>,
)
    requires
        stable_int(
            nodes.remove("/sys/class/qcom-battery/restrict_cur"@),
            IntNode::InputCurrentMax,
        ) is Some,
    ensures
        stable_int(
            nodes.insert("/sys/class/qcom-battery/restrict_cur"@, limit),
            IntNode::InputCurrentMax,
        ) == stable_int(
            nodes.remove("/sys/class/qcom-battery/restrict_cur"@),
            IntNode::InputCurrentMax,
        ),
{
    reveal(stable_int);
    reveal_strlit("/sys/class/qcom-battery/restrict_cur");
    reveal_strlit("/sys/class/qcom-battery/fg1_current_max");
    reveal_strlit("/sys/class/qcom-battery/constant_power");
    reveal_strlit("/sys/class/power_supply/usb_main/constant_charge_current_max");
    reveal_strlit("/sys/class/power_supply/usb/current_max");
    reveal_strlit("/sys/class/power_supply/usb_main/input_current_max");
    let path = "/sys/class/qcom-battery/restrict_cur"@;
    let without = nodes.remove(path);
    let with = nodes.insert(path, limit);
    let paths = IntNode::InputCurrentMax.spec_paths();
    assert(paths[5] == path && paths.len() == 6);
    assert(paths[0].len() != path.len() && paths[1].len() != path.len());
    assert(paths[2].len() != path.len() && paths[3].len() != path.len());
    assert(paths[4].len() != path.len());
    let live = Seq::new(5, |i: int| contents_at(nodes, paths[i]));
    assert(paths.map_values(|p: Seq<char>| contents_at(without, p)) =~= live.push(None));
    assert(paths.map_values(|p: Seq<char>| contents_at(with, p)) =~= live.push(Some(limit)));
    lemma_first_node_int_push(live, None, false);
    lemma_first_node_int_push(live, Some(limit), false);
}

// ── one step at a time ──

/// Clearing a session takes every trace of fast charging away and leaves the rest:
/// a second time changes nothing.
pub proof fn clearing_takes_the_session_away(info: ChargerInfoView)
    ensures
        ({
            let cleared = session_cleared(info);
            &&& cleared.usb_type.len() == 0 && cleared.usb_real_type.len() == 0
            &&& cleared.quick_charge_type.len() == 0 && cleared.cp_status.len() == 0
            &&& cleared.pd_verified == 0 && cleared.cp_online == 0
            &&& cleared.cp_bus_voltage == 0 && cleared.cp_bus_current == 0
            &&& cleared.cp_master_iin == 0 && cleared.cp_slave_iin == 0
            &&& cleared.fastchg_mode == 0 && cleared.sport_mode == 0
            &&& cleared.adapter_power_w == 0
            &&& cleared.fast_charge_type == "0"@ && cleared.charge_technology == "0"@
            &&& session_cleared(cleared) == cleared
            &&& info == ChargerInfoView {
                usb_type: info.usb_type,
                usb_real_type: info.usb_real_type,
                quick_charge_type: info.quick_charge_type,
                cp_status: info.cp_status,
                pd_verified: info.pd_verified,
                cp_online: info.cp_online,
                cp_bus_voltage: info.cp_bus_voltage,
                cp_bus_current: info.cp_bus_current,
                cp_master_iin: info.cp_master_iin,
                cp_slave_iin: info.cp_slave_iin,
                fastchg_mode: info.fastchg_mode,
                sport_mode: info.sport_mode,
                adapter_power_w: info.adapter_power_w,
                fast_charge_type: info.fast_charge_type,
                charge_technology: info.charge_technology,
                ..cleared
            }
        }),
{
    assert(session_cleared(session_cleared(info)) =~= session_cleared(info));
}

/// On a computer's port the evidence of fast charging goes, and what the port itself
/// is stays.
pub proof fn data_port_loses_the_evidence(info: ChargerInfoView)
    ensures
        ({
            let cleared = evidence_cleared(info);
            &&& cleared.quick_charge_type == "0"@ && cleared.cp_status.len() == 0
            &&& cleared.pd_verified == 0 && cleared.cp_online == 0
            &&& cleared.cp_master_iin == 0 && cleared.cp_slave_iin == 0
            &&& cleared.fastchg_mode == 0 && cleared.sport_mode == 0
            &&& cleared.adapter_power_w == 0
            &&& info == ChargerInfoView {
                quick_charge_type: info.quick_charge_type,
                cp_status: info.cp_status,
                pd_verified: info.pd_verified,
                cp_online: info.cp_online,
                cp_master_iin: info.cp_master_iin,
                cp_slave_iin: info.cp_slave_iin,
                fastchg_mode: info.fastchg_mode,
                sport_mode: info.sport_mode,
                adapter_power_w: info.adapter_power_w,
                ..cleared
            }
        }),
{
}

/// What is derived is the fast-charge type, the technology, the charge state and the
/// remaining time, all from the same readings, which stay.
pub proof fn readings_stay_as_types_are_derived(info: ChargerInfoView)
    ensures
        ({
            let done = classified(info);
            let fast_type = fast_inputs_of(info).fast_type();
            &&& done.fast_charge_type == int_text(fast_type as int)
            &&& done.charge_technology == int_text(
                charge_technology_of(info.quick_charge_type, fast_type) as int,
            )
            &&& done.charge_state == charge_state_of(info)
            &&& done.remaining_time == remaining_seconds(info)
            &&& info == ChargerInfoView {
                fast_charge_type: info.fast_charge_type,
                charge_technology: info.charge_technology,
                charge_state: info.charge_state,
                remaining_time: info.remaining_time,
                ..done
            }
        }),
{
    reveal(classified);
}

/// A charger's power is read directly; only without a positive reading is the
/// constant power asked for, and only without that is the power estimated from the
/// other readings, which no power reading changes.
pub proof fn power_is_asked_for_in_order(info: ChargerInfoView, reading: Option<i32>, power: i32)
    ensures
        ({
            let direct = ScanView { info, stage: ScanStage::AdapterPower };
            let constant = ScanView { info, stage: ScanStage::ConstantPower };
            let some = reading == Some(power) && power > 0;
            let none = reading is None || (reading == Some(power) && power <= 0);
            &&& stage_request(direct.stage) == ScanRequest::ReadInt(IntNode::AdapterPower)
            &&& stage_request(constant.stage) == ScanRequest::ReadInt(IntNode::ConstantPower)
            &&& some ==> direct.int_read(reading).stage == ScanStage::Estimated(
                watts_from_reading(power),
            )
            &&& none ==> direct.int_read(reading).stage == ScanStage::ConstantPower
            &&& some ==> constant.int_read(reading).stage == ScanStage::Estimated(
                watts_from_reading(power),
            )
            &&& none ==> constant.int_read(reading).stage == ScanStage::Estimated(
                estimated_power(info, 0, 0),
            )
            &&& direct.int_read(reading).info == info
            &&& constant.int_read(reading).info == info
        }),
{
}

/// A power outside 30 to 35 W settles at once; one inside is asked for again of a
/// charger whose type calls for it, each time after a wait of 10 ms.
pub proof fn estimated_power_settles(info: ChargerInfoView, power_w: i32)
    ensures
        ({
            let scan = ScanView { info, stage: ScanStage::Estimated(power_w) };
            let next = scan.checked(false);
            &&& stage_request(scan.stage) == ScanRequest::CheckCancel
            &&& power_w < 30 || power_w > 35 ==> next.stage == ScanStage::Settled && next.info == (
            ChargerInfoView { adapter_power_w: power_w, ..info })
            &&& next.stage is Recheck ==> next.info == info && 30 <= power_w <= 35
            &&& next.stage is Recheck && stage_request(next.stage) is Wait ==> {
                &&& stage_request(next.stage) == ScanRequest::Wait(10)
                &&& stage_request(next.after_wait().stage) == ScanRequest::ReadInt(
                    IntNode::AdapterPower,
                )
                &&& next.after_wait().info == next.info
            }
        }),
{
}

/// A scan whose power is settled ends with what is derived from its readings, or is
/// given up without it.
pub proof fn settled_scan_ends(info: ChargerInfoView)
    ensures
        ({
            let scan = ScanView { info, stage: ScanStage::Settled };
            &&& stage_request(scan.stage) == ScanRequest::CheckCancel
            &&& scan.checked(false) == (ScanView {
                info: classified(info),
                stage: ScanStage::Finished(true),
            })
            &&& scan.checked(true) == (ScanView { info, stage: ScanStage::Finished(false) })
        }),
{
}

/// Once all nodes are read, a scan goes on to the power exactly on a charger that is
/// no computer's port, with its readings as they are.
pub proof fn only_chargers_go_on_to_the_power(info: ChargerInfoView)
    ensures
        ({
            let online = info.usb_online != 0 || info.ac_online != 0 || info.wireless_online != 0;
            let port = info.usb_online != 0 && (info.pc_port_online != 0 || data_port_type(
                info.effective_usb_type(),
            ));
            let next = nodes_done(info);
            &&& online && !port ==> next == (ScanView { info, stage: ScanStage::AdapterPower })
            &&& !online ==> next == (ScanView {
                info: classified(session_cleared(info)),
                stage: ScanStage::Finished(true),
            })
            &&& online && port ==> next == (ScanView {
                info: classified(evidence_cleared(info)),
                stage: ScanStage::Finished(true),
            })
        }),
{
    reveal(nodes_done);
}

/// What a completed scan shows is what the classifiers give of its result: neither
/// the type nor the technology changes by being derived again.
pub proof fn derived_types_stand(info: ChargerInfoView)
    ensures
        ({
            let done = classified(info);
            &&& fast_type_text(done) == done.fast_charge_type
            &&& technology_text(done) == done.charge_technology
            &&& fast_type_text(done) == fast_type_text(info)
            &&& charge_state_of(done) == done.charge_state
        }),
{
    reveal(classified);
    assert(fast_inputs_of(classified(info)) =~= fast_inputs_of(info));
    fast_type_text_reads_back(fast_inputs_of(info).fast_type());
}

/// A further reading of the power counts where it is higher, and the last one settles
/// the power on the highest; the other readings stay.
pub proof fn further_readings_count(
    info: ChargerInfoView,
    best_power_w: i32,
    left: u8,
    reading: Option<i32>,
)
    requires
        1 <= left <= 3,
    ensures
        ({
            let scan = ScanView {
                info,
                stage: ScanStage::Recheck {
                    recheck: PowerRecheck { best_power_w, step: RecheckStep::ReadPower(left) },
                    waited: true,
                },
            };
            let next = scan.int_read(reading);
            let read = direct_watts(reading);
            let best = if read > best_power_w {
                read
            } else {
                best_power_w
            };
            &&& stage_request(scan.stage) == ScanRequest::ReadInt(IntNode::AdapterPower)
            &&& left == 1 ==> next == (ScanView {
                info: ChargerInfoView { adapter_power_w: best, ..info },
                stage: ScanStage::Settled,
            })
            &&& left > 1 ==> next == (ScanView {
                info,
                stage: ScanStage::Recheck {
                    recheck: PowerRecheck {
                        best_power_w: best,
                        step: RecheckStep::ReadPower((left - 1) as u8),
                    },
                    waited: false,
                },
            })
        }),
{
}

/// A charger whose type is not known is asked for it before its power is read again:
/// the fourth type and a super one are read three times more, and any other settles.
pub proof fn type_is_asked_for_again(
    info: ChargerInfoView,
    best_power_w: i32,
    reading: Option<Seq<char>>,
    text: Seq<char>,
)
    requires
        reading == Some(text) || (reading is None && text.len() == 0),
    ensures
        ({
            let scan = ScanView {
                info,
                stage: ScanStage::Recheck {
                    recheck: PowerRecheck { best_power_w, step: RecheckStep::ReadType },
                    waited: false,
                },
            };
            let next = scan.text_read(reading);
            let fit = trimmed(text) == "4"@ || contains_text(lower_text(text), "super"@);
            &&& stage_request(scan.stage) == ScanRequest::ReadText(TextNode::QuickChargeType)
            &&& fit ==> next == (ScanView {
                info,
                stage: ScanStage::Recheck {
                    recheck: PowerRecheck { best_power_w, step: RecheckStep::ReadPower(3) },
                    waited: false,
                },
            })
            &&& !fit ==> next == (ScanView {
                info: ChargerInfoView { adapter_power_w: best_power_w, ..info },
                stage: ScanStage::Settled,
            })
        }),
{
    if reading is None {
        assert(text =~= Seq::<char>::empty());
    }
}

} // verus!
