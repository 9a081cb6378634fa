//! What every run of a scan comes to, whatever it is answered.

use crate::classify::{estimates_are_not_negative, fast_inputs_of};
use crate::info::{ChargeState, ChargerInfoView};
use crate::nodes::{IntNode, TextNode};
use crate::readings::{kept, with_int, with_text};
use crate::recheck::RecheckStep;
use crate::scan::{
    after_op, classified, evidence_cleared, nodes_done, on_charger, scan_op, scan_start,
    session_cleared, stage_request, ScanOp, ScanRequest, ScanStage, ScanView, SCAN_OPS,
};
use crate::scan_laws::SCAN_REQUESTS;
use crate::scan_results::{
    data_port_scan_shows_no_fast_charge, derived_agrees, evidence_gone, lemma_classified_agrees,
    offline_scan_clears_session, on_data_port, scans_keep_capacity_in_percent, session_gone,
};
use vstd::prelude::*;

verus! {

/// An answer to a request, whichever it is.
#[verifier::ext_equal]
pub struct ScanAnswer {
    pub cancel: bool,
    pub int_reading: Option<i32>,
    pub text_reading: Option<Seq<char>>,
}

/// The scan after its request is answered.
pub open spec fn answered_with(scan: ScanView, answer: ScanAnswer) -> ScanView {
    match stage_request(scan.stage) {
        ScanRequest::CheckCancel => scan.checked(answer.cancel),
        ScanRequest::ReadInt(_) => scan.int_read(answer.int_reading),
        ScanRequest::ReadText(_) => scan.text_read(answer.text_reading),
        ScanRequest::Wait(_) => scan.after_wait(),
        ScanRequest::Finished(_) => scan,
    }
}

/// The scan after its requests are answered in order.
pub open spec fn run_with(scan: ScanView, answers: Seq<ScanAnswer>) -> ScanView
    decreases answers.len(),
{
    if answers.len() == 0 {
        scan
    } else {
        run_with(answered_with(scan, answers[0]), answers.drop_first())
    }
}

/// A question whether to give up is answered with yes on the way.
pub open spec fn told_to_give_up(scan: ScanView, answers: Seq<ScanAnswer>) -> bool
    decreases answers.len(),
{
    answers.len() > 0 && {
        ||| stage_request(scan.stage) is CheckCancel && answers[0].cancel
        ||| told_to_give_up(answered_with(scan, answers[0]), answers.drop_first())
    }
}

/// The most requests that a scan still makes.
pub open spec fn requests_left(stage: ScanStage) -> int {
    match stage {
        ScanStage::Nodes(i) => SCAN_OPS - i + 11,
        ScanStage::AdapterPower => 11,
        ScanStage::ConstantPower => 10,
        ScanStage::Estimated(_) => 9,
        ScanStage::Recheck { recheck, waited } => match recheck.step {
            RecheckStep::ReadPower(left) => if waited {
                2 * left as int
            } else {
                2 * left + 1
            },
            _ => 8,
        },
        ScanStage::Settled => 1,
        ScanStage::Finished(_) => 0,
    }
}

/// What the readings of a scan have in common: fallbacks are taken, and texts
/// that stand for one another are the same.
pub open spec fn readings_agree(info: ChargerInfoView) -> bool {
    &&& info.usb_voltage_now == 0 ==> info.cp_bus_voltage == 0
    &&& info.usb_current_now == 0 ==> info.cp_bus_current == 0
    &&& info.usb_real_type.len() > 0 ==> info.usb_type == info.usb_real_type
    &&& info.gauge_type == info.fg_vendor
    &&& info.gauge_info.len() == 0
    &&& info.charge_full_design == 0 ==> info.charge_full == 0
    &&& info.charge_counter == 0 ==> info.fg_rm == 0
    &&& info.authentic == 1
}

/// What holds of the result of every completed scan.
pub open spec fn completed_agrees(info: ChargerInfoView) -> bool {
    &&& readings_agree(info)
    &&& derived_agrees(info)
    &&& info.adapter_power_w >= 0
    &&& !info.online() ==> session_gone(info) && info.charge_state == ChargeState::Disconnected
    &&& on_data_port(info) ==> evidence_gone(info) && info.charge_state
        == ChargeState::SlowCharging
}

/// [`readings_agree`], as far as the operations before `i` establish it.
spec fn agrees_before(info: ChargerInfoView, i: int) -> bool {
    &&& i > 9 ==> (info.usb_voltage_now == 0 ==> info.cp_bus_voltage == 0)
    &&& i > 10 ==> (info.usb_current_now == 0 ==> info.cp_bus_current == 0)
    &&& i > 13 ==> (info.usb_real_type.len() > 0 ==> info.usb_type == info.usb_real_type)
    &&& i > 35 ==> info.gauge_type == info.fg_vendor && info.gauge_info.len() == 0
    &&& i > 37 ==> (info.charge_full_design == 0 ==> info.charge_full == 0)
    &&& i > 38 ==> (info.charge_counter == 0 ==> info.fg_rm == 0)
    &&& i > 68 ==> info.authentic == 1
}

proof fn lemma_order(i: usize)
    ensures
        i == 9 ==> scan_op(i) == ScanOp::Int(IntNode::CpBusCurrent),
        i == 10 ==> scan_op(i) == ScanOp::Int(IntNode::UsbCurrentNow),
        i == 13 ==> scan_op(i) == ScanOp::Text(TextNode::UsbRealType),
        i == 35 ==> scan_op(i) == ScanOp::Text(TextNode::FgVendor),
        i == 37 ==> scan_op(i) == ScanOp::Int(IntNode::ChargeFullDesign),
        i == 38 ==> scan_op(i) == ScanOp::Int(IntNode::ChargeCounter),
        i == 68 ==> scan_op(i) == ScanOp::Text(TextNode::BattSn),
        i > 9 ==> scan_op(i) != ScanOp::Int(IntNode::UsbVoltageNow) && scan_op(i) != ScanOp::Int(
            IntNode::CpBusVoltage,
        ) && scan_op(i) != ScanOp::Int(IntNode::CpBusCurrent),
        i > 10 ==> scan_op(i) != ScanOp::Int(IntNode::UsbCurrentNow),
        i > 13 ==> scan_op(i) != ScanOp::Text(TextNode::UsbType) && scan_op(i) != ScanOp::Text(
            TextNode::UsbRealType,
        ),
        i > 35 ==> scan_op(i) != ScanOp::Text(TextNode::FgVendor),
        i > 37 ==> scan_op(i) != ScanOp::Int(IntNode::ChargeFull) && scan_op(i) != ScanOp::Int(
            IntNode::ChargeFullDesign,
        ),
        i > 38 ==> scan_op(i) != ScanOp::Int(IntNode::FgRm) && scan_op(i) != ScanOp::Int(
            IntNode::ChargeCounter,
        ),
{
    reveal(scan_op);
}

/// Which fields of [`readings_agree`] an integer reading touches.
proof fn lemma_int_touches(info: ChargerInfoView, node: IntNode, reading: Option<i32>)
    ensures
        ({
            let next = with_int(info, node, reading);
            &&& next.usb_type == info.usb_type
            &&& next.usb_real_type == info.usb_real_type
            &&& next.gauge_type == info.gauge_type
            &&& next.fg_vendor == info.fg_vendor
            &&& next.gauge_info == info.gauge_info
            &&& next.authentic == info.authentic
            &&& node != IntNode::UsbVoltageNow && node != IntNode::CpBusCurrent
                ==> next.usb_voltage_now == info.usb_voltage_now
            &&& node != IntNode::CpBusVoltage ==> next.cp_bus_voltage == info.cp_bus_voltage
            &&& node == IntNode::CpBusCurrent && next.usb_voltage_now == 0 ==> next.cp_bus_voltage
                == 0
            &&& node != IntNode::UsbCurrentNow ==> next.usb_current_now == info.usb_current_now
            &&& node != IntNode::CpBusCurrent ==> next.cp_bus_current == info.cp_bus_current
            &&& node == IntNode::UsbCurrentNow && next.usb_current_now == 0 ==> next.cp_bus_current
                == 0
            &&& node != IntNode::ChargeFull ==> next.charge_full == info.charge_full
            &&& node != IntNode::ChargeFullDesign ==> next.charge_full_design
                == info.charge_full_design
            &&& node == IntNode::ChargeFullDesign && next.charge_full_design == 0
                ==> next.charge_full == 0
            &&& node != IntNode::FgRm ==> next.fg_rm == info.fg_rm
            &&& node != IntNode::ChargeCounter ==> next.charge_counter == info.charge_counter
            &&& node == IntNode::ChargeCounter && next.charge_counter == 0 ==> next.fg_rm == 0
        }),
{
    reveal(with_int);
}

/// Which fields of [`readings_agree`] a text reading touches.
proof fn lemma_text_touches(info: ChargerInfoView, node: TextNode, reading: Option<Seq<char>>)
    ensures
        ({
            let next = with_text(info, node, reading);
            &&& next.usb_voltage_now == info.usb_voltage_now
            &&& next.cp_bus_voltage == info.cp_bus_voltage
            &&& next.usb_current_now == info.usb_current_now
            &&& next.cp_bus_current == info.cp_bus_current
            &&& next.charge_full == info.charge_full
            &&& next.charge_full_design == info.charge_full_design
            &&& next.fg_rm == info.fg_rm
            &&& next.charge_counter == info.charge_counter
            &&& next.authentic == 1 || next.authentic == info.authentic
            &&& node == TextNode::BattSn ==> next.authentic == 1
            &&& node != TextNode::UsbType && node != TextNode::UsbRealType ==> next.usb_type
                == info.usb_type && next.usb_real_type == info.usb_real_type
            &&& node == TextNode::UsbRealType && next.usb_real_type.len() > 0 ==> next.usb_type
                == next.usb_real_type
            &&& node != TextNode::FgVendor ==> next.gauge_type == info.gauge_type && next.fg_vendor
                == info.fg_vendor && next.gauge_info == info.gauge_info
            &&& node == TextNode::FgVendor ==> next.gauge_type == next.fg_vendor
                && next.gauge_info.len() == 0
        }),
{
    reveal(with_text);
}

proof fn lemma_op_keeps(
    info: ChargerInfoView,
    i: usize,
    int_reading: Option<i32>,
    text_reading: Option<Seq<char>>,
)
    requires
        i < SCAN_OPS,
        agrees_before(info, i as int),
    ensures
        scan_op(i) is Check ==> agrees_before(info, i + 1),
        scan_op(i) matches ScanOp::Int(node) ==> agrees_before(
            with_int(info, node, int_reading),
            i + 1,
        ),
        scan_op(i) matches ScanOp::Text(node) ==> agrees_before(
            with_text(info, node, text_reading),
            i + 1,
        ),
{
    lemma_order(i);
    match scan_op(i) {
        ScanOp::Check => {},
        ScanOp::Int(node) => {
            lemma_int_touches(info, node, int_reading);
        },
        ScanOp::Text(node) => {
            lemma_text_touches(info, node, text_reading);
        },
    }
}

/// What every state of a run has.
spec fn sound(scan: ScanView) -> bool {
    scan.well_formed() && match scan.stage {
        ScanStage::Nodes(i) => agrees_before(scan.info, i as int),
        ScanStage::Finished(completed) => completed ==> completed_agrees(scan.info),
        _ => readings_agree(scan.info),
    }
}

proof fn lemma_classified_keeps(info: ChargerInfoView)
    ensures
        readings_agree(info) ==> readings_agree(classified(info)),
        classified(info).online() == info.online(),
        fast_inputs_of(classified(info)) == fast_inputs_of(info),
        classified(info).adapter_power_w == info.adapter_power_w,
{
    reveal(classified);
    assert(fast_inputs_of(classified(info)) =~= fast_inputs_of(info));
}

proof fn lemma_nodes_done_is_sound(info: ChargerInfoView)
    requires
        readings_agree(info),
    ensures
        sound(nodes_done(info)),
        requests_left(nodes_done(info).stage) <= 11,
        nodes_done(info).stage != ScanStage::Finished(false),
{
    reveal(nodes_done);
    if !info.online() {
        let cleared = session_cleared(info);
        offline_scan_clears_session(info);
        lemma_classified_keeps(cleared);
        lemma_classified_agrees(cleared);
    } else if on_data_port(info) {
        let cleared = evidence_cleared(info);
        data_port_scan_shows_no_fast_charge(info);
        lemma_classified_keeps(cleared);
        lemma_classified_agrees(cleared);
    }
}

proof fn lemma_after_op_is_sound(info: ChargerInfoView, i: usize)
    requires
        i < SCAN_OPS,
        agrees_before(info, i + 1),
    ensures
        sound(after_op(info, i)),
        requests_left(after_op(info, i).stage) < requests_left(ScanStage::Nodes(i)),
        after_op(info, i).stage != ScanStage::Finished(false),
{
    if i + 1 >= SCAN_OPS {
        lemma_nodes_done_is_sound(info);
    }
}

/// One answer keeps a run sound and brings it nearer to its end; only a yes to
/// the question whether to give up ends it uncompleted.
proof fn lemma_answer(scan: ScanView, answer: ScanAnswer)
    requires
        sound(scan),
    ensures
        ({
            let next = answered_with(scan, answer);
            &&& sound(next)
            &&& scan.stage is Finished ==> next == scan
            &&& scan.stage !is Finished ==> requests_left(next.stage) < requests_left(scan.stage)
            &&& scan.stage !is Finished ==> (next.stage == ScanStage::Finished(false)
                <==> stage_request(scan.stage) is CheckCancel && answer.cancel)
        }),
{
    let info = scan.info;
    match scan.stage {
        ScanStage::Nodes(i) => {
            lemma_op_keeps(info, i, answer.int_reading, answer.text_reading);
            match scan_op(i) {
                ScanOp::Check => {
                    lemma_after_op_is_sound(info, i);
                },
                ScanOp::Int(node) => {
                    lemma_after_op_is_sound(with_int(info, node, answer.int_reading), i);
                },
                ScanOp::Text(node) => {
                    lemma_after_op_is_sound(with_text(info, node, answer.text_reading), i);
                },
            }
        },
        ScanStage::AdapterPower => {
            estimates_are_not_negative(info, kept(answer.int_reading, 0), 0);
        },
        ScanStage::ConstantPower => {
            estimates_are_not_negative(info, 0, kept(answer.int_reading, 0));
        },
        ScanStage::Settled => {
            lemma_classified_keeps(info);
            lemma_classified_agrees(info);
        },
        _ => {},
    }
}

proof fn lemma_run(scan: ScanView, answers: Seq<ScanAnswer>)
    requires
        sound(scan),
    ensures
        ({
            let end = run_with(scan, answers);
            &&& sound(end)
            &&& answers.len() >= requests_left(scan.stage) ==> end.stage is Finished
            &&& scan.stage is Finished ==> end == scan && !told_to_give_up(scan, answers)
            &&& scan.stage !is Finished ==> (end.stage == ScanStage::Finished(false)
                <==> told_to_give_up(scan, answers))
        }),
    decreases answers.len(),
{
    if answers.len() > 0 {
        lemma_answer(scan, answers[0]);
        lemma_run(answered_with(scan, answers[0]), answers.drop_first());
    }
}

// ── laws ──

/// Whatever it is answered, a scan ends after a bounded number of requests. It is
/// completed exactly where no question whether to give up was answered with yes.
pub proof fn every_scan_ends(info: ChargerInfoView, answers: Seq<ScanAnswer>)
    requires
        answers.len() >= SCAN_REQUESTS,
    ensures
        ({
            let end = run_with(scan_start(info), answers);
            &&& end.stage is Finished
            &&& end.stage == ScanStage::Finished(true) <==> !told_to_give_up(
                scan_start(info),
                answers,
            )
        }),
{
    lemma_run(scan_start(info), answers);
}

/// Whatever it is answered, and whatever was known before, the result of a
/// completed scan agrees in itself: nothing of a session is left without a power
/// source, no evidence of fast charging on a data port, and no power is negative.
pub proof fn every_completed_scan_agrees(info: ChargerInfoView, answers: Seq<ScanAnswer>)
    ensures
        ({
            let end = run_with(scan_start(info), answers);
            end.stage == ScanStage::Finished(true) ==> completed_agrees(end.info)
        }),
{
    lemma_run(scan_start(info), answers);
}

/// Whatever it is answered, a scan asks for the adapter power only of a charger
/// that is no data port.
pub proof fn power_is_read_of_chargers_only(info: ChargerInfoView, answers: Seq<ScanAnswer>)
    ensures
        ({
            let scan = run_with(scan_start(info), answers);
            &&& scan.well_formed()
            &&& scan.stage !is Nodes && scan.stage !is Finished ==> on_charger(scan.info)
        }),
{
    lemma_run(scan_start(info), answers);
}

/// Whatever it is answered, a scan keeps the battery capacity between 0 and 100.
pub proof fn every_scan_keeps_capacity_in_percent(scan: ScanView, answers: Seq<ScanAnswer>)
    requires
        0 <= scan.info.battery_capacity <= 100,
    ensures
        0 <= run_with(scan, answers).info.battery_capacity <= 100,
    decreases answers.len(),
{
    if answers.len() > 0 {
        let answer = answers[0];
        scans_keep_capacity_in_percent(
            scan,
            answer.cancel,
            answer.int_reading,
            answer.text_reading,
        );
        every_scan_keeps_capacity_in_percent(answered_with(scan, answer), answers.drop_first());
    }
}

} // verus!
