//! What a reading does to the charging state.

use crate::info::{ChargerInfo, ChargerInfoView};
use crate::nodes::{
    int_reading_or_zero, opt_string_view, text_reading_or_empty, update_int, update_text, IntNode,
    TextNode,
};
use crate::units::{capacity_percent, normalize_battery_capacity};
use vstd::prelude::*;

verus! {

pub open spec fn kept(reading: Option<i32>, known: i32) -> i32 {
    match reading {
        Some(v) => v,
        None => known,
    }
}

pub open spec fn kept_text(reading: Option<Seq<char>>, known: Seq<char>) -> Seq<char> {
    match reading {
        Some(v) => v,
        None => known,
    }
}

pub open spec fn nonzero_or(value: i32, other: i32) -> i32 {
    if value != 0 {
        value
    } else {
        other
    }
}

/// `info` after `reading` of an integer metric.
#[verifier::opaque]
pub open spec fn with_int(
    info: ChargerInfoView,
    node: IntNode,
    reading: Option<i32>,
) -> ChargerInfoView {
    match node {
        IntNode::UsbOnline => ChargerInfoView {
            usb_online: kept(reading, info.usb_online),
            ..info
        },
        IntNode::AcOnline => ChargerInfoView {
            ac_online: kept(reading, info.ac_online),
            ..info
        },
        IntNode::WirelessOnline => ChargerInfoView {
            wireless_online: kept(reading, info.wireless_online),
            ..info
        },
        IntNode::UsbVoltageNow => ChargerInfoView {
            usb_voltage_now: kept(reading, info.usb_voltage_now),
            ..info
        },
        IntNode::CpBusVoltage => ChargerInfoView {
            cp_bus_voltage: kept(reading, info.cp_bus_voltage),
            ..info
        },
        IntNode::CpBusCurrent => ChargerInfoView {
            cp_bus_current: kept(reading, info.cp_bus_current),
            usb_voltage_now: nonzero_or(info.usb_voltage_now, info.cp_bus_voltage),
            ..info
        },
        IntNode::UsbCurrentNow => ChargerInfoView {
            usb_current_now: nonzero_or(
                kept(reading, info.usb_current_now),
                info.cp_bus_current,
            ),
            ..info
        },
        IntNode::UsbTemp => ChargerInfoView {
            usb_temp: kept(reading, info.usb_temp),
            ..info
        },
        IntNode::ConnectorTemp => ChargerInfoView {
            connector_temp: kept(reading, info.connector_temp),
            ..info
        },
        IntNode::CcOrientation => ChargerInfoView {
            cc_orientation: kept(reading, info.cc_orientation),
            ..info
        },
        IntNode::BatteryTemp => ChargerInfoView {
            battery_temp: kept(reading, info.battery_temp),
            ..info
        },
        IntNode::BatteryCurrentNow => ChargerInfoView {
            battery_current_now: kept(reading, info.battery_current_now),
            ..info
        },
        IntNode::BatteryVoltageNow => ChargerInfoView {
            battery_voltage_now: kept(reading, info.battery_voltage_now),
            ..info
        },
        IntNode::BatteryCapacity => ChargerInfoView {
            battery_capacity: match reading {
                Some(v) => capacity_percent(v),
                None => info.battery_capacity,
            },
            ..info
        },
        IntNode::FgFcc => ChargerInfoView { fg_fcc: kept(reading, 0), ..info },
        IntNode::ChargeFull => ChargerInfoView { charge_full: kept(reading, 0), ..info },
        IntNode::FgRm => ChargerInfoView { fg_rm: kept(reading, 0), ..info },
        IntNode::FgRsoc => ChargerInfoView { fg_rsoc: kept(reading, 0), ..info },
        IntNode::FgCycle => ChargerInfoView { fg_cycle: kept(reading, 0), ..info },
        IntNode::FgSoh => ChargerInfoView { fg_soh: kept(reading, 0), ..info },
        IntNode::FgQmax => ChargerInfoView { fg_qmax: kept(reading, 0), ..info },
        IntNode::FgAi => ChargerInfoView { fg_ai: kept(reading, 0), ..info },
        IntNode::FgAvgCurrent => ChargerInfoView { fg_avg_current: kept(reading, 0), ..info },
        IntNode::ChargeFullDesign => ChargerInfoView {
            charge_full_design: nonzero_or(kept(reading, 0), info.charge_full),
            ..info
        },
        IntNode::ChargeCounter => ChargerInfoView {
            charge_counter: nonzero_or(kept(reading, 0), info.fg_rm),
            ..info
        },
        IntNode::CycleCount => ChargerInfoView { cycle_count: kept(reading, 0), ..info },
        IntNode::Cell1Vol => ChargerInfoView { cell1_vol: kept(reading, 0), ..info },
        IntNode::Cell2Vol => ChargerInfoView { cell2_vol: kept(reading, 0), ..info },
        IntNode::Cell1Rascale => ChargerInfoView { cell1_rascale: kept(reading, 0), ..info },
        IntNode::InputCurrentMax => ChargerInfoView { input_current_max: kept(reading, 0), ..info },
        IntNode::InputVoltageMax => ChargerInfoView { input_voltage_max: kept(reading, 0), ..info },
        IntNode::InputCurrentSettled => ChargerInfoView {
            input_current_settled: kept(reading, 0),
            ..info
        },
        IntNode::InputVoltageSettled => ChargerInfoView {
            input_voltage_settled: kept(reading, 0),
            ..info
        },
        IntNode::FastchgMode => ChargerInfoView { fastchg_mode: kept(reading, 0), ..info },
        IntNode::SportMode => ChargerInfoView { sport_mode: kept(reading, 0), ..info },
        IntNode::PdVerified => ChargerInfoView { pd_verified: kept(reading, 0), ..info },
        IntNode::CpOnline => ChargerInfoView { cp_online: kept(reading, 0), ..info },
        IntNode::CpMasterIin => ChargerInfoView { cp_master_iin: kept(reading, 0), ..info },
        IntNode::CpSlaveIin => ChargerInfoView { cp_slave_iin: kept(reading, 0), ..info },
        IntNode::RemainingTime => ChargerInfoView { remaining_time: kept(reading, 0), ..info },
        IntNode::RestrictChg => ChargerInfoView { restrict_chg: kept(reading, 0), ..info },
        IntNode::InputSuspend => ChargerInfoView { input_suspend: kept(reading, 0), ..info },
        IntNode::SmartChg => ChargerInfoView { smart_chg: kept(reading, 0), ..info },
        IntNode::NightCharging => ChargerInfoView { night_charging: kept(reading, 0), ..info },
        IntNode::SmartBatt => ChargerInfoView { smart_batt: kept(reading, 0), ..info },
        IntNode::DieTemperature => ChargerInfoView { die_temperature: kept(reading, 0), ..info },
        IntNode::SlaveDieTemperature => ChargerInfoView {
            slave_die_temperature: kept(reading, 0),
            ..info
        },
        IntNode::ThermalBoardTemp => ChargerInfoView {
            thermal_board_temp: kept(reading, 0),
            ..info
        },
        IntNode::BattContOnline => ChargerInfoView { batt_cont_online: kept(reading, 0), ..info },
        IntNode::MaxLifeTemp => ChargerInfoView { max_life_temp: kept(reading, 0), ..info },
        IntNode::MaxLifeVol => ChargerInfoView { max_life_vol: kept(reading, 0), ..info },
        IntNode::OverVolDuration => ChargerInfoView { over_vol_duration: kept(reading, 0), ..info },
        IntNode::MoistureStatus => ChargerInfoView {
            moisture_detected: kept(reading, 0) != 0,
            ..info
        },
        IntNode::FlashActive => ChargerInfoView { flash_active: kept(reading, 0) != 0, ..info },
        IntNode::HifiConnect => ChargerInfoView { hifi_connect: kept(reading, 0) != 0, ..info },
        IntNode::VbusDisable => ChargerInfoView { vbus_disable: kept(reading, 0) != 0, ..info },
        IntNode::OtgUiSupport => ChargerInfoView { otg_ui_support: kept(reading, 0), ..info },
        IntNode::FakeSoc => ChargerInfoView { fake_soc: kept(reading, 0), ..info },
        IntNode::FakeSoh => ChargerInfoView { fake_soh: kept(reading, 0), ..info },
        IntNode::FakeCycle => ChargerInfoView { fake_cycle: kept(reading, 0), ..info },
        IntNode::FakeTemp => ChargerInfoView { fake_temp: kept(reading, 0), ..info },
        IntNode::PcPortOnline => ChargerInfoView { pc_port_online: kept(reading, 0), ..info },
        _ => info,
    }
}

/// `info` after `reading` of a text metric.
#[verifier::opaque]
pub open spec fn with_text(
    info: ChargerInfoView,
    node: TextNode,
    reading: Option<Seq<char>>,
) -> ChargerInfoView {
    match node {
        TextNode::UsbType => ChargerInfoView {
            usb_type: kept_text(reading, info.usb_type),
            ..info
        },
        TextNode::WirelessType => ChargerInfoView {
            wireless_type: kept_text(reading, info.wireless_type),
            ..info
        },
        TextNode::UsbRealType => ChargerInfoView {
            usb_real_type: kept_text(reading, Seq::empty()),
            usb_type: if kept_text(reading, Seq::empty()).len() > 0 {
                reading->0
            } else {
                info.usb_type
            },
            ..info
        },
        TextNode::TypecMode => ChargerInfoView {
            typec_mode: kept_text(reading, info.typec_mode),
            ..info
        },
        TextNode::BatteryStatus => ChargerInfoView {
            battery_status: kept_text(reading, info.battery_status),
            ..info
        },
        TextNode::BatteryHealth => ChargerInfoView {
            battery_health: kept_text(reading, info.battery_health),
            ..info
        },
        TextNode::BatteryChargeType => ChargerInfoView {
            battery_charge_type: kept_text(reading, info.battery_charge_type),
            ..info
        },
        TextNode::BatteryTechnology => ChargerInfoView {
            battery_technology: kept_text(reading, info.battery_technology),
            ..info
        },
        TextNode::FgVendor => ChargerInfoView {
            fg_vendor: kept_text(reading, Seq::empty()),
            gauge_type: kept_text(reading, Seq::empty()),
            gauge_info: Seq::empty(),
            ..info
        },
        TextNode::BatteryType => ChargerInfoView {
            battery_type: kept_text(reading, Seq::empty()),
            ..info
        },
        TextNode::CurrentState => ChargerInfoView {
            current_state: kept_text(reading, Seq::empty()),
            ..info
        },
        TextNode::QuickChargeType => ChargerInfoView {
            quick_charge_type: kept_text(reading, Seq::empty()),
            ..info
        },
        TextNode::CpStatus => ChargerInfoView {
            cp_status: kept_text(reading, Seq::empty()),
            ..info
        },
        TextNode::BattSn => ChargerInfoView {
            batt_sn: kept_text(reading, Seq::empty()),
            authentic: 1,
            ..info
        },
    }
}

pub fn apply_int(info: &mut ChargerInfo, node: IntNode, reading: Option<i32>)
    ensures
        final(info)@ == with_int(old(info)@, node, reading),
{
    reveal(with_int);
    match node {
        IntNode::UsbOnline => {
            update_int(&mut info.usb_online, reading);
        },
        IntNode::AcOnline => {
            update_int(&mut info.ac_online, reading);
        },
        IntNode::WirelessOnline => {
            update_int(&mut info.wireless_online, reading);
        },
        IntNode::UsbVoltageNow => {
            update_int(&mut info.usb_voltage_now, reading);
        },
        IntNode::CpBusVoltage => {
            update_int(&mut info.cp_bus_voltage, reading);
        },
        IntNode::CpBusCurrent => {
            update_int(&mut info.cp_bus_current, reading);
            if info.usb_voltage_now == 0 {
                info.usb_voltage_now = info.cp_bus_voltage;
            }
        },
        IntNode::UsbCurrentNow => {
            update_int(&mut info.usb_current_now, reading);
            if info.usb_current_now == 0 {
                info.usb_current_now = info.cp_bus_current;
            }
        },
        IntNode::UsbTemp => {
            update_int(&mut info.usb_temp, reading);
        },
        IntNode::ConnectorTemp => {
            update_int(&mut info.connector_temp, reading);
        },
        IntNode::CcOrientation => {
            update_int(&mut info.cc_orientation, reading);
        },
        IntNode::BatteryTemp => {
            update_int(&mut info.battery_temp, reading);
        },
        IntNode::BatteryCurrentNow => {
            update_int(&mut info.battery_current_now, reading);
        },
        IntNode::BatteryVoltageNow => {
            update_int(&mut info.battery_voltage_now, reading);
        },
        IntNode::BatteryCapacity => {
            if let Some(capacity) = reading {
                info.battery_capacity = normalize_battery_capacity(capacity);
            }
        },
        IntNode::FgFcc => {
            info.fg_fcc = int_reading_or_zero(reading);
        },
        IntNode::ChargeFull => {
            info.charge_full = int_reading_or_zero(reading);
        },
        IntNode::FgRm => {
            info.fg_rm = int_reading_or_zero(reading);
        },
        IntNode::FgRsoc => {
            info.fg_rsoc = int_reading_or_zero(reading);
        },
        IntNode::FgCycle => {
            info.fg_cycle = int_reading_or_zero(reading);
        },
        IntNode::FgSoh => {
            info.fg_soh = int_reading_or_zero(reading);
        },
        IntNode::FgQmax => {
            info.fg_qmax = int_reading_or_zero(reading);
        },
        IntNode::FgAi => {
            info.fg_ai = int_reading_or_zero(reading);
        },
        IntNode::FgAvgCurrent => {
            info.fg_avg_current = int_reading_or_zero(reading);
        },
        IntNode::ChargeFullDesign => {
            info.charge_full_design = int_reading_or_zero(reading);
            if info.charge_full_design == 0 {
                info.charge_full_design = info.charge_full;
            }
        },
        IntNode::ChargeCounter => {
            info.charge_counter = int_reading_or_zero(reading);
            if info.charge_counter == 0 {
                info.charge_counter = info.fg_rm;
            }
        },
        IntNode::CycleCount => {
            info.cycle_count = int_reading_or_zero(reading);
        },
        IntNode::Cell1Vol => {
            info.cell1_vol = int_reading_or_zero(reading);
        },
        IntNode::Cell2Vol => {
            info.cell2_vol = int_reading_or_zero(reading);
        },
        IntNode::Cell1Rascale => {
            info.cell1_rascale = int_reading_or_zero(reading);
        },
        IntNode::InputCurrentMax => {
            info.input_current_max = int_reading_or_zero(reading);
        },
        IntNode::InputVoltageMax => {
            info.input_voltage_max = int_reading_or_zero(reading);
        },
        IntNode::InputCurrentSettled => {
            info.input_current_settled = int_reading_or_zero(reading);
        },
        IntNode::InputVoltageSettled => {
            info.input_voltage_settled = int_reading_or_zero(reading);
        },
        IntNode::FastchgMode => {
            info.fastchg_mode = int_reading_or_zero(reading);
        },
        IntNode::SportMode => {
            info.sport_mode = int_reading_or_zero(reading);
        },
        IntNode::PdVerified => {
            info.pd_verified = int_reading_or_zero(reading);
        },
        IntNode::CpOnline => {
            info.cp_online = int_reading_or_zero(reading);
        },
        IntNode::CpMasterIin => {
            info.cp_master_iin = int_reading_or_zero(reading);
        },
        IntNode::CpSlaveIin => {
            info.cp_slave_iin = int_reading_or_zero(reading);
        },
        IntNode::RemainingTime => {
            info.remaining_time = int_reading_or_zero(reading);
        },
        IntNode::RestrictChg => {
            info.restrict_chg = int_reading_or_zero(reading);
        },
        IntNode::InputSuspend => {
            info.input_suspend = int_reading_or_zero(reading);
        },
        IntNode::SmartChg => {
            info.smart_chg = int_reading_or_zero(reading);
        },
        IntNode::NightCharging => {
            info.night_charging = int_reading_or_zero(reading);
        },
        IntNode::SmartBatt => {
            info.smart_batt = int_reading_or_zero(reading);
        },
        IntNode::DieTemperature => {
            info.die_temperature = int_reading_or_zero(reading);
        },
        IntNode::SlaveDieTemperature => {
            info.slave_die_temperature = int_reading_or_zero(reading);
        },
        IntNode::ThermalBoardTemp => {
            info.thermal_board_temp = int_reading_or_zero(reading);
        },
        IntNode::BattContOnline => {
            info.batt_cont_online = int_reading_or_zero(reading);
        },
        IntNode::MaxLifeTemp => {
            info.max_life_temp = int_reading_or_zero(reading);
        },
        IntNode::MaxLifeVol => {
            info.max_life_vol = int_reading_or_zero(reading);
        },
        IntNode::OverVolDuration => {
            info.over_vol_duration = int_reading_or_zero(reading);
        },
        IntNode::MoistureStatus => {
            info.moisture_detected = int_reading_or_zero(reading) != 0;
        },
        IntNode::FlashActive => {
            info.flash_active = int_reading_or_zero(reading) != 0;
        },
        IntNode::HifiConnect => {
            info.hifi_connect = int_reading_or_zero(reading) != 0;
        },
        IntNode::VbusDisable => {
            info.vbus_disable = int_reading_or_zero(reading) != 0;
        },
        IntNode::OtgUiSupport => {
            info.otg_ui_support = int_reading_or_zero(reading);
        },
        IntNode::FakeSoc => {
            info.fake_soc = int_reading_or_zero(reading);
        },
        IntNode::FakeSoh => {
            info.fake_soh = int_reading_or_zero(reading);
        },
        IntNode::FakeCycle => {
            info.fake_cycle = int_reading_or_zero(reading);
        },
        IntNode::FakeTemp => {
            info.fake_temp = int_reading_or_zero(reading);
        },
        IntNode::PcPortOnline => {
            info.pc_port_online = int_reading_or_zero(reading);
        },
        _ => {},
    }
}

pub fn apply_text(info: &mut ChargerInfo, node: TextNode, reading: Option<String>)
    ensures
        final(info)@ == with_text(old(info)@, node, opt_string_view(reading)),
{
    reveal(with_text);
    match node {
        TextNode::UsbType => {
            update_text(&mut info.usb_type, reading);
        },
        TextNode::WirelessType => {
            update_text(&mut info.wireless_type, reading);
        },
        TextNode::UsbRealType => {
            info.usb_real_type = text_reading_or_empty(reading);
            if !info.usb_real_type.as_str().is_empty() {
                info.usb_type = info.usb_real_type.clone();
            }
        },
        TextNode::TypecMode => {
            update_text(&mut info.typec_mode, reading);
        },
        TextNode::BatteryStatus => {
            update_text(&mut info.battery_status, reading);
        },
        TextNode::BatteryHealth => {
            update_text(&mut info.battery_health, reading);
        },
        TextNode::BatteryChargeType => {
            update_text(&mut info.battery_charge_type, reading);
        },
        TextNode::BatteryTechnology => {
            update_text(&mut info.battery_technology, reading);
        },
        TextNode::FgVendor => {
            info.fg_vendor = text_reading_or_empty(reading);
            info.gauge_type = info.fg_vendor.clone();
            info.gauge_info = String::new();
        },
        TextNode::BatteryType => {
            info.battery_type = text_reading_or_empty(reading);
        },
        TextNode::CurrentState => {
            info.current_state = text_reading_or_empty(reading);
        },
        TextNode::QuickChargeType => {
            info.quick_charge_type = text_reading_or_empty(reading);
        },
        TextNode::CpStatus => {
            info.cp_status = text_reading_or_empty(reading);
        },
        TextNode::BattSn => {
            info.batt_sn = text_reading_or_empty(reading);
            info.authentic = 1;
        },
    }
}

// ── laws ──

/// The integer metrics whose known value outlives a failed reading.
pub open spec fn live_int(node: IntNode) -> bool {
    ||| node == IntNode::UsbOnline
    ||| node == IntNode::AcOnline
    ||| node == IntNode::WirelessOnline
    ||| node == IntNode::UsbVoltageNow
    ||| node == IntNode::CpBusVoltage
    ||| node == IntNode::UsbTemp
    ||| node == IntNode::ConnectorTemp
    ||| node == IntNode::CcOrientation
    ||| node == IntNode::BatteryTemp
    ||| node == IntNode::BatteryCurrentNow
    ||| node == IntNode::BatteryVoltageNow
    ||| node == IntNode::BatteryCapacity
}

/// The text metrics whose known value outlives a failed reading.
pub open spec fn live_text(node: TextNode) -> bool {
    ||| node == TextNode::UsbType
    ||| node == TextNode::WirelessType
    ||| node == TextNode::TypecMode
    ||| node == TextNode::BatteryStatus
    ||| node == TextNode::BatteryHealth
    ||| node == TextNode::BatteryChargeType
    ||| node == TextNode::BatteryTechnology
}

/// A failed reading of a live metric changes nothing.
pub proof fn failed_live_readings_change_nothing(
    info: ChargerInfoView,
    int_node: IntNode,
    text_node: TextNode,
)
    requires
        live_int(int_node),
        live_text(text_node),
    ensures
        with_int(info, int_node, None) == info,
        with_text(info, text_node, None) == info,
{
    reveal(with_int);
    reveal(with_text);
}

/// A failed reading of the bus or USB current keeps the known value; a USB
/// value of 0 gives way to the bus value all the same.
pub proof fn failed_current_readings_keep_known_values(info: ChargerInfoView)
    ensures
        with_int(info, IntNode::CpBusCurrent, None).cp_bus_current == info.cp_bus_current,
        with_int(info, IntNode::UsbCurrentNow, None).usb_current_now == nonzero_or(
            info.usb_current_now,
            info.cp_bus_current,
        ),
{
    reveal(with_int);
}

/// Whatever is read, the battery capacity stays between 0 and 100.
pub proof fn capacity_stays_in_percent(
    info: ChargerInfoView,
    int_node: IntNode,
    int_reading: Option<i32>,
    text_node: TextNode,
    text_reading: Option<Seq<char>>,
)
    requires
        0 <= info.battery_capacity <= 100,
    ensures
        0 <= with_int(info, int_node, int_reading).battery_capacity <= 100,
        0 <= with_text(info, text_node, text_reading).battery_capacity <= 100,
{
    reveal(with_int);
    reveal(with_text);
}

} // verus!
