//! A scan of all nodes into a [`ChargerInfo`].
//!
//! A scan asks for one thing at a time: whether it is to be given up, what a
//! metric reads, or a wait. Whoever runs it answers.

use crate::adapter::Adapter;
use crate::classify::{
    charge_state_of, charge_technology_of, estimated_power, estimates_are_not_negative,
    fast_inputs_of, remaining_seconds,
};
use crate::info::{ChargerInfo, ChargerInfoView};
use crate::nodes::{
    int_reading_or_zero, opt_string_view, text_reading_or_empty, IntNode, TextNode,
};
use crate::readings::{apply_int, apply_text, kept, kept_text, with_int, with_text};
use crate::recheck::{
    recheck_start, recheck_with_type, PowerRecheck, RecheckStep, POWER_RECHECK_DELAY_MS,
    POWER_RECHECK_READS,
};
use crate::snapshot::{int_or_zero, is_data_port_usb_type};
use crate::text::{decimal_text_is_trimmed, decimal_text_reads_back, int_text};
use crate::units::watts_from_reading;
use vstd::prelude::*;

verus! {

// ── the order of a scan ──

#[derive(Debug, Clone, Copy, PartialEq, Eq, Structural)]
pub enum ScanOp {
    /// The scan may be given up here.
    Check,
    Int(IntNode),
    Text(TextNode),
}

/// The number of operations before the adapter power is looked at.
pub const SCAN_OPS: usize = 85;

/// The operations of a scan, in order.
#[verifier::opaque]
pub open spec fn scan_op(i: usize) -> ScanOp {
    match i {
        0 => ScanOp::Check,
        1 => ScanOp::Int(IntNode::UsbOnline),
        2 => ScanOp::Text(TextNode::UsbType),
        3 => ScanOp::Int(IntNode::AcOnline),
        4 => ScanOp::Int(IntNode::WirelessOnline),
        5 => ScanOp::Text(TextNode::WirelessType),
        6 => ScanOp::Check,
        7 => ScanOp::Int(IntNode::UsbVoltageNow),
        8 => ScanOp::Int(IntNode::CpBusVoltage),
        9 => ScanOp::Int(IntNode::CpBusCurrent),
        10 => ScanOp::Int(IntNode::UsbCurrentNow),
        11 => ScanOp::Int(IntNode::UsbTemp),
        12 => ScanOp::Int(IntNode::ConnectorTemp),
        13 => ScanOp::Text(TextNode::UsbRealType),
        14 => ScanOp::Text(TextNode::TypecMode),
        15 => ScanOp::Int(IntNode::CcOrientation),
        16 => ScanOp::Check,
        17 => ScanOp::Text(TextNode::BatteryStatus),
        18 => ScanOp::Text(TextNode::BatteryHealth),
        19 => ScanOp::Int(IntNode::BatteryTemp),
        20 => ScanOp::Int(IntNode::BatteryCurrentNow),
        21 => ScanOp::Int(IntNode::BatteryVoltageNow),
        22 => ScanOp::Text(TextNode::BatteryChargeType),
        23 => ScanOp::Text(TextNode::BatteryTechnology),
        24 => ScanOp::Int(IntNode::BatteryCapacity),
        25 => ScanOp::Check,
        26 => ScanOp::Int(IntNode::FgFcc),
        27 => ScanOp::Int(IntNode::ChargeFull),
        28 => ScanOp::Int(IntNode::FgRm),
        29 => ScanOp::Int(IntNode::FgRsoc),
        30 => ScanOp::Int(IntNode::FgCycle),
        31 => ScanOp::Int(IntNode::FgSoh),
        32 => ScanOp::Int(IntNode::FgQmax),
        33 => ScanOp::Int(IntNode::FgAi),
        34 => ScanOp::Int(IntNode::FgAvgCurrent),
        35 => ScanOp::Text(TextNode::FgVendor),
        36 => ScanOp::Text(TextNode::BatteryType),
        37 => ScanOp::Int(IntNode::ChargeFullDesign),
        38 => ScanOp::Int(IntNode::ChargeCounter),
        39 => ScanOp::Int(IntNode::CycleCount),
        40 => ScanOp::Check,
        41 => ScanOp::Int(IntNode::Cell1Vol),
        42 => ScanOp::Int(IntNode::Cell2Vol),
        43 => ScanOp::Int(IntNode::Cell1Rascale),
        44 => ScanOp::Int(IntNode::InputCurrentMax),
        45 => ScanOp::Int(IntNode::InputVoltageMax),
        46 => ScanOp::Int(IntNode::InputCurrentSettled),
        47 => ScanOp::Int(IntNode::InputVoltageSettled),
        48 => ScanOp::Int(IntNode::FastchgMode),
        49 => ScanOp::Text(TextNode::CurrentState),
        50 => ScanOp::Int(IntNode::SportMode),
        51 => ScanOp::Text(TextNode::QuickChargeType),
        52 => ScanOp::Int(IntNode::PdVerified),
        53 => ScanOp::Check,
        54 => ScanOp::Int(IntNode::CpOnline),
        55 => ScanOp::Text(TextNode::CpStatus),
        56 => ScanOp::Int(IntNode::CpMasterIin),
        57 => ScanOp::Int(IntNode::CpSlaveIin),
        58 => ScanOp::Int(IntNode::RemainingTime),
        59 => ScanOp::Int(IntNode::RestrictChg),
        60 => ScanOp::Int(IntNode::InputSuspend),
        61 => ScanOp::Int(IntNode::SmartChg),
        62 => ScanOp::Int(IntNode::NightCharging),
        63 => ScanOp::Int(IntNode::SmartBatt),
        64 => ScanOp::Check,
        65 => ScanOp::Int(IntNode::DieTemperature),
        66 => ScanOp::Int(IntNode::SlaveDieTemperature),
        67 => ScanOp::Int(IntNode::ThermalBoardTemp),
        68 => ScanOp::Text(TextNode::BattSn),
        69 => ScanOp::Int(IntNode::BattContOnline),
        70 => ScanOp::Int(IntNode::MaxLifeTemp),
        71 => ScanOp::Int(IntNode::MaxLifeVol),
        72 => ScanOp::Int(IntNode::OverVolDuration),
        73 => ScanOp::Int(IntNode::MoistureStatus),
        74 => ScanOp::Check,
        75 => ScanOp::Int(IntNode::FlashActive),
        76 => ScanOp::Int(IntNode::HifiConnect),
        77 => ScanOp::Int(IntNode::VbusDisable),
        78 => ScanOp::Int(IntNode::OtgUiSupport),
        79 => ScanOp::Int(IntNode::FakeSoc),
        80 => ScanOp::Int(IntNode::FakeSoh),
        81 => ScanOp::Int(IntNode::FakeCycle),
        82 => ScanOp::Int(IntNode::FakeTemp),
        83 => ScanOp::Int(IntNode::PcPortOnline),
        _ => ScanOp::Check,
    }
}

fn scan_op_at(i: usize) -> (r: ScanOp)
    ensures
        r == scan_op(i),
{
    reveal(scan_op);
    match i {
        0 => ScanOp::Check,
        1 => ScanOp::Int(IntNode::UsbOnline),
        2 => ScanOp::Text(TextNode::UsbType),
        3 => ScanOp::Int(IntNode::AcOnline),
        4 => ScanOp::Int(IntNode::WirelessOnline),
        5 => ScanOp::Text(TextNode::WirelessType),
        6 => ScanOp::Check,
        7 => ScanOp::Int(IntNode::UsbVoltageNow),
        8 => ScanOp::Int(IntNode::CpBusVoltage),
        9 => ScanOp::Int(IntNode::CpBusCurrent),
        10 => ScanOp::Int(IntNode::UsbCurrentNow),
        11 => ScanOp::Int(IntNode::UsbTemp),
        12 => ScanOp::Int(IntNode::ConnectorTemp),
        13 => ScanOp::Text(TextNode::UsbRealType),
        14 => ScanOp::Text(TextNode::TypecMode),
        15 => ScanOp::Int(IntNode::CcOrientation),
        16 => ScanOp::Check,
        17 => ScanOp::Text(TextNode::BatteryStatus),
        18 => ScanOp::Text(TextNode::BatteryHealth),
        19 => ScanOp::Int(IntNode::BatteryTemp),
        20 => ScanOp::Int(IntNode::BatteryCurrentNow),
        21 => ScanOp::Int(IntNode::BatteryVoltageNow),
        22 => ScanOp::Text(TextNode::BatteryChargeType),
        23 => ScanOp::Text(TextNode::BatteryTechnology),
        24 => ScanOp::Int(IntNode::BatteryCapacity),
        25 => ScanOp::Check,
        26 => ScanOp::Int(IntNode::FgFcc),
        27 => ScanOp::Int(IntNode::ChargeFull),
        28 => ScanOp::Int(IntNode::FgRm),
        29 => ScanOp::Int(IntNode::FgRsoc),
        30 => ScanOp::Int(IntNode::FgCycle),
        31 => ScanOp::Int(IntNode::FgSoh),
        32 => ScanOp::Int(IntNode::FgQmax),
        33 => ScanOp::Int(IntNode::FgAi),
        34 => ScanOp::Int(IntNode::FgAvgCurrent),
        35 => ScanOp::Text(TextNode::FgVendor),
        36 => ScanOp::Text(TextNode::BatteryType),
        37 => ScanOp::Int(IntNode::ChargeFullDesign),
        38 => ScanOp::Int(IntNode::ChargeCounter),
        39 => ScanOp::Int(IntNode::CycleCount),
        40 => ScanOp::Check,
        41 => ScanOp::Int(IntNode::Cell1Vol),
        42 => ScanOp::Int(IntNode::Cell2Vol),
        43 => ScanOp::Int(IntNode::Cell1Rascale),
        44 => ScanOp::Int(IntNode::InputCurrentMax),
        45 => ScanOp::Int(IntNode::InputVoltageMax),
        46 => ScanOp::Int(IntNode::InputCurrentSettled),
        47 => ScanOp::Int(IntNode::InputVoltageSettled),
        48 => ScanOp::Int(IntNode::FastchgMode),
        49 => ScanOp::Text(TextNode::CurrentState),
        50 => ScanOp::Int(IntNode::SportMode),
        51 => ScanOp::Text(TextNode::QuickChargeType),
        52 => ScanOp::Int(IntNode::PdVerified),
        53 => ScanOp::Check,
        54 => ScanOp::Int(IntNode::CpOnline),
        55 => ScanOp::Text(TextNode::CpStatus),
        56 => ScanOp::Int(IntNode::CpMasterIin),
        57 => ScanOp::Int(IntNode::CpSlaveIin),
        58 => ScanOp::Int(IntNode::RemainingTime),
        59 => ScanOp::Int(IntNode::RestrictChg),
        60 => ScanOp::Int(IntNode::InputSuspend),
        61 => ScanOp::Int(IntNode::SmartChg),
        62 => ScanOp::Int(IntNode::NightCharging),
        63 => ScanOp::Int(IntNode::SmartBatt),
        64 => ScanOp::Check,
        65 => ScanOp::Int(IntNode::DieTemperature),
        66 => ScanOp::Int(IntNode::SlaveDieTemperature),
        67 => ScanOp::Int(IntNode::ThermalBoardTemp),
        68 => ScanOp::Text(TextNode::BattSn),
        69 => ScanOp::Int(IntNode::BattContOnline),
        70 => ScanOp::Int(IntNode::MaxLifeTemp),
        71 => ScanOp::Int(IntNode::MaxLifeVol),
        72 => ScanOp::Int(IntNode::OverVolDuration),
        73 => ScanOp::Int(IntNode::MoistureStatus),
        74 => ScanOp::Check,
        75 => ScanOp::Int(IntNode::FlashActive),
        76 => ScanOp::Int(IntNode::HifiConnect),
        77 => ScanOp::Int(IntNode::VbusDisable),
        78 => ScanOp::Int(IntNode::OtgUiSupport),
        79 => ScanOp::Int(IntNode::FakeSoc),
        80 => ScanOp::Int(IntNode::FakeSoh),
        81 => ScanOp::Int(IntNode::FakeCycle),
        82 => ScanOp::Int(IntNode::FakeTemp),
        83 => ScanOp::Int(IntNode::PcPortOnline),
        _ => ScanOp::Check,
    }
}

// ── the state of a scan ──

/// Where a scan stands.
#[derive(Debug, Clone, Copy, PartialEq, Eq, Structural)]
pub enum ScanStage {
    /// At an operation of [`scan_op`].
    Nodes(usize),
    /// At the direct reading of the adapter power.
    AdapterPower,
    /// At the constant-power reading, with no direct one.
    ConstantPower,
    /// The power is estimated; the scan may be given up here.
    Estimated(i32),
    /// In the recheck of the power; before a further reading comes a wait.
    Recheck { recheck: PowerRecheck, waited: bool },
    /// The power is known; the scan may be given up here.
    Settled,
    /// At its end: completed, or given up.
    Finished(bool),
}

/// What a scan asks for next.
#[derive(Debug, Clone, Copy, PartialEq, Eq, Structural)]
pub enum ScanRequest {
    /// Whether to give up.
    CheckCancel,
    ReadInt(IntNode),
    ReadText(TextNode),
    /// A wait of so many milliseconds.
    Wait(u64),
    /// Nothing; whether it was completed.
    Finished(bool),
}

/// A scan with its charging state as a view.
#[verifier::ext_equal]
pub struct ScanView {
    pub info: ChargerInfoView,
    pub stage: ScanStage,
}

pub open spec fn stage_request(stage: ScanStage) -> ScanRequest {
    match stage {
        ScanStage::Nodes(i) => match scan_op(i) {
            ScanOp::Check => ScanRequest::CheckCancel,
            ScanOp::Int(node) => ScanRequest::ReadInt(node),
            ScanOp::Text(node) => ScanRequest::ReadText(node),
        },
        ScanStage::AdapterPower => ScanRequest::ReadInt(IntNode::AdapterPower),
        ScanStage::ConstantPower => ScanRequest::ReadInt(IntNode::ConstantPower),
        ScanStage::Estimated(_) => ScanRequest::CheckCancel,
        ScanStage::Recheck { recheck, waited } => if recheck.step is ReadType {
            ScanRequest::ReadText(TextNode::QuickChargeType)
        } else if !waited {
            ScanRequest::Wait(POWER_RECHECK_DELAY_MS)
        } else {
            ScanRequest::ReadInt(IntNode::AdapterPower)
        },
        ScanStage::Settled => ScanRequest::CheckCancel,
        ScanStage::Finished(completed) => ScanRequest::Finished(completed),
    }
}

/// `info` with every trace of a fast-charge session removed.
pub open spec fn session_cleared(info: ChargerInfoView) -> ChargerInfoView {
    ChargerInfoView {
        usb_type: Seq::empty(),
        usb_real_type: Seq::empty(),
        quick_charge_type: Seq::empty(),
        pd_verified: 0,
        cp_online: 0,
        cp_status: Seq::empty(),
        cp_bus_voltage: 0,
        cp_bus_current: 0,
        cp_master_iin: 0,
        cp_slave_iin: 0,
        fastchg_mode: 0,
        sport_mode: 0,
        adapter_power_w: 0,
        fast_charge_type: "0"@,
        charge_technology: "0"@,
        ..info
    }
}

/// `info` with every evidence of fast charging removed, as a data port calls
/// for.
pub open spec fn evidence_cleared(info: ChargerInfoView) -> ChargerInfoView {
    ChargerInfoView {
        quick_charge_type: "0"@,
        pd_verified: 0,
        cp_online: 0,
        cp_status: Seq::empty(),
        cp_master_iin: 0,
        cp_slave_iin: 0,
        fastchg_mode: 0,
        sport_mode: 0,
        adapter_power_w: 0,
        ..info
    }
}

/// `info` with what is derived from the readings: the fast-charge type, the
/// charge technology, the charge state and the remaining time.
#[verifier::opaque]
pub open spec fn classified(info: ChargerInfoView) -> ChargerInfoView {
    let fast_type = fast_inputs_of(info).fast_type();
    ChargerInfoView {
        fast_charge_type: int_text(fast_type as int),
        charge_technology: int_text(
            charge_technology_of(info.quick_charge_type, fast_type) as int,
        ),
        charge_state: charge_state_of(info),
        remaining_time: remaining_seconds(info),
        ..info
    }
}

/// A scan whose nodes are all read: it ends here without a power source and on
/// a data port, and goes on to the adapter power otherwise.
#[verifier::opaque]
pub open spec fn nodes_done(info: ChargerInfoView) -> ScanView {
    if !info.online() {
        ScanView { info: classified(session_cleared(info)), stage: ScanStage::Finished(true) }
    } else if fast_inputs_of(info).on_data_port() {
        ScanView { info: classified(evidence_cleared(info)), stage: ScanStage::Finished(true) }
    } else {
        ScanView { info, stage: ScanStage::AdapterPower }
    }
}

pub open spec fn after_op(info: ChargerInfoView, i: usize) -> ScanView {
    if i + 1 < SCAN_OPS {
        ScanView { info, stage: ScanStage::Nodes((i + 1) as usize) }
    } else {
        nodes_done(info)
    }
}

pub open spec fn rechecking(info: ChargerInfoView, recheck: PowerRecheck) -> ScanView {
    if recheck.step is Done {
        ScanView {
            info: ChargerInfoView { adapter_power_w: recheck.best_power_w, ..info },
            stage: ScanStage::Settled,
        }
    } else {
        ScanView { info, stage: ScanStage::Recheck { recheck, waited: false } }
    }
}

/// The watts of a direct power reading; 0 where there is none.
pub open spec fn direct_watts(reading: Option<i32>) -> i32 {
    if kept(reading, 0) > 0 {
        watts_from_reading(kept(reading, 0))
    } else {
        0
    }
}

/// A power source is connected, and it is no data port.
pub open spec fn on_charger(info: ChargerInfoView) -> bool {
    info.online() && !fast_inputs_of(info).on_data_port()
}

/// A recheck of a power that is not negative, with few readings left.
pub open spec fn recheck_bounded(recheck: PowerRecheck) -> bool {
    recheck.best_power_w >= 0 && (recheck.step matches RecheckStep::ReadPower(left) ==> 1 <= left
        <= POWER_RECHECK_READS)
}

impl ScanView {
    /// The scan after the answer whether to give up.
    pub open spec fn checked(self, cancel: bool) -> ScanView {
        if cancel {
            ScanView { stage: ScanStage::Finished(false), ..self }
        } else {
            match self.stage {
                ScanStage::Nodes(i) => after_op(self.info, i),
                ScanStage::Estimated(power_w) => rechecking(
                    self.info,
                    recheck_start(power_w, self.info.quick_charge_type),
                ),
                _ => ScanView {
                    info: classified(self.info),
                    stage: ScanStage::Finished(true),
                },
            }
        }
    }

    /// The scan after an integer reading.
    pub open spec fn int_read(self, reading: Option<i32>) -> ScanView {
        match self.stage {
            ScanStage::Nodes(i) => after_op(with_int(self.info, scan_op(i)->Int_0, reading), i),
            ScanStage::AdapterPower => if kept(reading, 0) > 0 {
                ScanView {
                    stage: ScanStage::Estimated(estimated_power(self.info, reading->0, 0)),
                    ..self
                }
            } else {
                ScanView { stage: ScanStage::ConstantPower, ..self }
            },
            ScanStage::ConstantPower => ScanView {
                stage: ScanStage::Estimated(estimated_power(self.info, 0, kept(reading, 0))),
                ..self
            },
            ScanStage::Recheck { recheck, .. } => rechecking(
                self.info,
                recheck.with_power(direct_watts(reading)),
            ),
            _ => self,
        }
    }

    /// The scan after a text reading.
    pub open spec fn text_read(self, reading: Option<Seq<char>>) -> ScanView {
        match self.stage {
            ScanStage::Nodes(i) => after_op(with_text(self.info, scan_op(i)->Text_0, reading), i),
            ScanStage::Recheck { recheck, .. } => rechecking(
                self.info,
                recheck_with_type(recheck.best_power_w, kept_text(reading, Seq::empty())),
            ),
            _ => self,
        }
    }

    /// The scan after a wait.
    pub open spec fn after_wait(self) -> ScanView {
        match self.stage {
            ScanStage::Recheck { recheck, .. } => ScanView {
                stage: ScanStage::Recheck { recheck, waited: true },
                ..self
            },
            _ => self,
        }
    }

    /// The scan asks for what it can use: for the adapter power only of a charger
    /// that is no data port.
    pub open spec fn well_formed(self) -> bool {
        match self.stage {
            ScanStage::Nodes(i) => i < SCAN_OPS,
            ScanStage::AdapterPower | ScanStage::ConstantPower => on_charger(self.info),
            ScanStage::Estimated(power_w) => on_charger(self.info) && power_w >= 0,
            ScanStage::Recheck { recheck, waited } => {
                &&& on_charger(self.info)
                &&& recheck_bounded(recheck)
                &&& recheck.step !is Done
                &&& waited ==> recheck.step is ReadPower
            },
            ScanStage::Settled => on_charger(self.info) && self.info.adapter_power_w >= 0,
            ScanStage::Finished(_) => true,
        }
    }
}

/// The start of a scan over what is known.
pub open spec fn scan_start(info: ChargerInfoView) -> ScanView {
    ScanView { info, stage: ScanStage::Nodes(0) }
}

/// A scan under way.
pub struct PollScan {
    info: ChargerInfo,
    stage: ScanStage,
}

impl View for PollScan {
    type V = ScanView;

    closed spec fn view(&self) -> ScanView {
        ScanView { info: self.info@, stage: self.stage }
    }
}

impl PollScan {
    pub fn request(&self) -> (r: ScanRequest)
        ensures
            r == stage_request(self@.stage),
    {
        match self.stage {
            ScanStage::Nodes(i) => match scan_op_at(i) {
                ScanOp::Check => ScanRequest::CheckCancel,
                ScanOp::Int(node) => ScanRequest::ReadInt(node),
                ScanOp::Text(node) => ScanRequest::ReadText(node),
            },
            ScanStage::AdapterPower => ScanRequest::ReadInt(IntNode::AdapterPower),
            ScanStage::ConstantPower => ScanRequest::ReadInt(IntNode::ConstantPower),
            ScanStage::Estimated(_) => ScanRequest::CheckCancel,
            ScanStage::Recheck { recheck, waited } => match recheck.step {
                RecheckStep::ReadType => ScanRequest::ReadText(TextNode::QuickChargeType),
                _ => if !waited {
                    ScanRequest::Wait(POWER_RECHECK_DELAY_MS)
                } else {
                    ScanRequest::ReadInt(IntNode::AdapterPower)
                },
            },
            ScanStage::Settled => ScanRequest::CheckCancel,
            ScanStage::Finished(completed) => ScanRequest::Finished(completed),
        }
    }

    fn finish_op(&mut self, i: usize)
        requires
            i < SCAN_OPS,
        ensures
            final(self)@ == after_op(old(self)@.info, i),
            final(self)@.well_formed(),
    {
        reveal(nodes_done);
        if i + 1 < SCAN_OPS {
            self.stage = ScanStage::Nodes(i + 1);
            return ;
        }
        if !self.info.online() {
            Adapter::clear_fast_charge_session(&mut self.info);
            self.complete();
        } else if self.info.usb_online != 0 && (self.info.pc_port_online != 0
            || is_data_port_usb_type(self.info.effective_usb_type())) {
            self.info.quick_charge_type = "0".to_owned();
            self.info.pd_verified = 0;
            self.info.cp_online = 0;
            self.info.cp_status = String::new();
            self.info.cp_master_iin = 0;
            self.info.cp_slave_iin = 0;
            self.info.fastchg_mode = 0;
            self.info.sport_mode = 0;
            self.info.adapter_power_w = 0;
            self.complete();
        } else {
            self.stage = ScanStage::AdapterPower;
        }
    }

    fn complete(&mut self)
        ensures
            final(self)@ == (ScanView {
                info: classified(old(self)@.info),
                stage: ScanStage::Finished(true),
            }),
    {
        proof {
            reveal(classified);
            fast_type_text_reads_back(fast_inputs_of(self.info@).fast_type());
        }
        self.info.fast_charge_type = Adapter::classify_fast_charge(&self.info);
        self.info.charge_technology = Adapter::classify_charge_technology(&self.info);
        self.info.charge_state = Adapter::classify_charge_state(&self.info);
        self.info.remaining_time = Adapter::estimate_remaining_time_seconds(&self.info);
        self.stage = ScanStage::Finished(true);
    }

    fn continue_recheck(&mut self, recheck: PowerRecheck)
        requires
            on_charger(old(self)@.info),
            recheck_bounded(recheck),
        ensures
            final(self)@ == rechecking(old(self)@.info, recheck),
            final(self)@.well_formed(),
    {
        match recheck.step {
            RecheckStep::Done => {
                self.info.adapter_power_w = recheck.best_power_w;
                self.stage = ScanStage::Settled;
            },
            _ => {
                self.stage = ScanStage::Recheck { recheck, waited: false };
            },
        }
    }

    /// Answers whether to give up.
    pub fn check(&mut self, cancel: bool)
        requires
            old(self)@.well_formed(),
            stage_request(old(self)@.stage) is CheckCancel,
        ensures
            final(self)@ == old(self)@.checked(cancel),
            final(self)@.well_formed(),
    {
        if cancel {
            self.stage = ScanStage::Finished(false);
            return ;
        }
        match self.stage {
            ScanStage::Nodes(i) => self.finish_op(i),
            ScanStage::Estimated(power_w) => {
                let recheck: PowerRecheck = Adapter::stable_adapter_power_w_with(
                    power_w,
                    self.info.quick_charge_type.as_str(),
                );
                self.continue_recheck(recheck);
            },
            _ => self.complete(),
        }
    }

    /// Answers what an integer metric reads.
    pub fn int_read(&mut self, reading: Option<i32>)
        requires
            old(self)@.well_formed(),
            stage_request(old(self)@.stage) is ReadInt,
        ensures
            final(self)@ == old(self)@.int_read(reading),
            final(self)@.well_formed(),
    {
        match self.stage {
            ScanStage::Nodes(i) => {
                if let ScanOp::Int(node) = scan_op_at(i) {
                    apply_int(&mut self.info, node, reading);
                    self.finish_op(i);
                }
            },
            ScanStage::AdapterPower => {
                let direct: i32 = int_reading_or_zero(reading);
                proof {
                    estimates_are_not_negative(self.info@, direct, 0);
                }
                if direct > 0 {
                    self.stage = ScanStage::Estimated(
                        Adapter::estimate_power(&self.info, direct, 0),
                    );
                } else {
                    self.stage = ScanStage::ConstantPower;
                }
            },
            ScanStage::ConstantPower => {
                proof {
                    estimates_are_not_negative(self.info@, 0, kept(reading, 0));
                }
                self.stage = ScanStage::Estimated(
                    Adapter::estimate_power(&self.info, 0, int_reading_or_zero(reading)),
                );
            },
            ScanStage::Recheck { recheck, .. } => {
                let mut next: PowerRecheck = recheck;
                next.power_read(Adapter::direct_adapter_power_w(reading));
                self.continue_recheck(next);
            },
            _ => {},
        }
    }

    /// Answers what a text metric reads.
    pub fn text_read(&mut self, reading: Option<String>)
        requires
            old(self)@.well_formed(),
            stage_request(old(self)@.stage) is ReadText,
        ensures
            final(self)@ == old(self)@.text_read(opt_string_view(reading)),
            final(self)@.well_formed(),
    {
        match self.stage {
            ScanStage::Nodes(i) => {
                if let ScanOp::Text(node) = scan_op_at(i) {
                    apply_text(&mut self.info, node, reading);
                    self.finish_op(i);
                }
            },
            ScanStage::Recheck { recheck, .. } => {
                let mut next: PowerRecheck = recheck;
                let quick_charge_type: String = text_reading_or_empty(reading);
                next.type_read(quick_charge_type.as_str());
                self.continue_recheck(next);
            },
            _ => {},
        }
    }

    /// Answers that the wait is over.
    pub fn waited(&mut self)
        requires
            old(self)@.well_formed(),
            stage_request(old(self)@.stage) is Wait,
        ensures
            final(self)@ == old(self)@.after_wait(),
            final(self)@.well_formed(),
    {
        if let ScanStage::Recheck { recheck, .. } = self.stage {
            self.stage = ScanStage::Recheck { recheck, waited: true };
        }
    }

    /// The charging state as far as it is scanned.
    pub fn into_info(self) -> (r: ChargerInfo)
        ensures
            r@ == self@.info,
    {
        self.info
    }
}

impl Adapter {
    /// Starts a scan over what is known.
    pub fn poll_once(info: ChargerInfo) -> (r: PollScan)
        ensures
            r@ == scan_start(info@),
            r@.well_formed(),
    {
        PollScan { info, stage: ScanStage::Nodes(0) }
    }

    pub fn clear_fast_charge_session(info: &mut ChargerInfo)
        ensures
            final(info)@ == session_cleared(old(info)@),
    {
        info.usb_type = String::new();
        info.usb_real_type = String::new();
        info.quick_charge_type = String::new();
        info.pd_verified = 0;
        info.cp_online = 0;
        info.cp_status = String::new();
        info.cp_bus_voltage = 0;
        info.cp_bus_current = 0;
        info.cp_master_iin = 0;
        info.cp_slave_iin = 0;
        info.fastchg_mode = 0;
        info.sport_mode = 0;
        info.adapter_power_w = 0;
        info.fast_charge_type = "0".to_owned();
        info.charge_technology = "0".to_owned();
    }

    /// The watts of a direct power reading; 0 where there is none.
    pub fn direct_adapter_power_w(reading: Option<i32>) -> (r: i32)
        ensures
            r == direct_watts(reading),
    {
        let direct: i32 = int_reading_or_zero(reading);
        if direct > 0 {
            Self::normalize_power_value(direct)
        } else {
            0
        }
    }
}

/// The text of a fast-charge type reads back as the type.
pub proof fn fast_type_text_reads_back(fast_type: i32)
    ensures
        int_or_zero(int_text(fast_type as int)) == fast_type,
{
    decimal_text_reads_back(fast_type as int);
    decimal_text_is_trimmed(fast_type as int);
}

} // verus!
