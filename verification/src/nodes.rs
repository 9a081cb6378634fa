//! The nodes that charging metrics are read from and controls are written to,
//! and what the contents of a node mean.
//!
//! A metric has candidate nodes in order of preference. A query hands out
//! their paths one at a time, takes the contents of each, and stops at the
//! first that has a value.

use crate::text::{as_i64, parse_i64, trim, trimmed, views};
use crate::units::{as_clamped_i32, clamp_i64_to_i32};
use vstd::prelude::*;

verus! {

/// A metric that is an integer.
#[derive(Debug, Clone, Copy, PartialEq, Eq, Structural)]
pub enum IntNode {
    UsbOnline,
    AcOnline,
    WirelessOnline,
    UsbVoltageNow,
    CpBusVoltage,
    CpBusCurrent,
    UsbCurrentNow,
    UsbTemp,
    ConnectorTemp,
    CcOrientation,
    BatteryTemp,
    BatteryCurrentNow,
    BatteryVoltageNow,
    BatteryCapacity,
    FgFcc,
    ChargeFull,
    FgRm,
    FgRsoc,
    FgCycle,
    FgSoh,
    FgQmax,
    FgAi,
    FgAvgCurrent,
    ChargeFullDesign,
    ChargeCounter,
    CycleCount,
    Cell1Vol,
    Cell2Vol,
    Cell1Rascale,
    InputCurrentMax,
    InputVoltageMax,
    InputCurrentSettled,
    InputVoltageSettled,
    FastchgMode,
    SportMode,
    PdVerified,
    CpOnline,
    CpMasterIin,
    CpSlaveIin,
    RemainingTime,
    RestrictChg,
    InputSuspend,
    SmartChg,
    NightCharging,
    SmartBatt,
    DieTemperature,
    SlaveDieTemperature,
    ThermalBoardTemp,
    BattContOnline,
    MaxLifeTemp,
    MaxLifeVol,
    OverVolDuration,
    MoistureStatus,
    FlashActive,
    HifiConnect,
    VbusDisable,
    OtgUiSupport,
    FakeSoc,
    FakeSoh,
    FakeCycle,
    FakeTemp,
    PcPortOnline,
    AdapterPower,
    ConstantPower,
    UiSocDecimal,
    UiSocDecimalRate,
    ChargeControlLimitMax,
}

/// A metric that is a text.
#[derive(Debug, Clone, Copy, PartialEq, Eq, Structural)]
pub enum TextNode {
    UsbType,
    WirelessType,
    UsbRealType,
    TypecMode,
    BatteryStatus,
    BatteryHealth,
    BatteryChargeType,
    BatteryTechnology,
    FgVendor,
    BatteryType,
    CurrentState,
    QuickChargeType,
    CpStatus,
    BattSn,
}

/// A control.
#[derive(Debug, Clone, Copy, PartialEq, Eq, Structural)]
pub enum WriteNode {
    ChargeControlLimit,
    CoolMode,
    CoolDown,
    ChargeStopThreshold,
    ChargeLimitState,
    BypassStatus,
}

impl IntNode {
    /// The candidate nodes, the preferred one first.
    pub open spec fn spec_paths(self) -> Seq<Seq<char>> {
        match self {
            IntNode::UsbOnline => seq!["/sys/class/power_supply/usb/online"@],
            IntNode::AcOnline => seq!["/sys/class/power_supply/ac/online"@],
            IntNode::WirelessOnline => seq![
                "/sys/class/power_supply/wireless/online"@,
                "/sys/class/power_supply/dc/online"@,
            ],
            IntNode::UsbVoltageNow => seq!["/sys/class/power_supply/usb/voltage_now"@],
            IntNode::CpBusVoltage => seq!["/sys/class/qcom-battery/bq2597x_bus_voltage"@],
            IntNode::CpBusCurrent => seq!["/sys/class/qcom-battery/bq2597x_bus_current"@],
            IntNode::UsbCurrentNow => seq![
                "/sys/class/power_supply/usb/current_now"@,
                "/sys/class/power_supply/usb/input_current_now"@,
            ],
            IntNode::UsbTemp => seq![
                "/sys/class/qcom-battery/connector_temp"@,
                "/sys/class/power_supply/usb/usb_temp"@,
            ],
            IntNode::ConnectorTemp => seq![
                "/sys/class/qcom-battery/connector_temp"@,
                "/sys/class/power_supply/usb/usb_temp"@,
            ],
            IntNode::CcOrientation => seq!["/sys/class/qcom-battery/cc_orientation"@],
            IntNode::BatteryTemp => seq!["/sys/class/power_supply/battery/temp"@],
            IntNode::BatteryCurrentNow => seq![
                "/sys/class/power_supply/battery/current_now"@,
            ],
            IntNode::BatteryVoltageNow => seq![
                "/sys/class/power_supply/battery/voltage_now"@,
            ],
            IntNode::BatteryCapacity => seq![
                "/sys/class/power_supply/battery/capacity"@,
                "/sys/class/qcom-battery/fg1_rsoc"@,
            ],
            IntNode::FgFcc => seq!["/sys/class/power_supply/battery/batt_fcc"@],
            IntNode::ChargeFull => seq![
                "/sys/class/power_supply/battery/batt_fcc"@,
                "/sys/class/qcom-battery/fg1_fcc"@,
                "/sys/class/power_supply/battery/charge_full"@,
            ],
            IntNode::FgRm => seq!["/sys/class/power_supply/battery/batt_rm"@],
            IntNode::FgRsoc => seq!["/sys/class/qcom-battery/fg1_rsoc"@],
            IntNode::FgCycle => seq!["/sys/class/qcom-battery/fg1_cycle"@],
            IntNode::FgSoh => seq![
                "/sys/class/qcom-battery/fg1_soh"@,
                "/sys/class/qcom-battery/soh"@,
                "/sys/class/power_supply/bms/soh"@,
            ],
            IntNode::FgQmax => seq![
                "/sys/class/qcom-battery/fg1_qmax"@,
                "/sys/class/power_supply/battery/qmax"@,
            ],
            IntNode::FgAi => seq!["/sys/class/qcom-battery/fg1_ai"@],
            IntNode::FgAvgCurrent => seq!["/sys/class/qcom-battery/fg1_avg_current"@],
            IntNode::ChargeFullDesign => seq![
                "/sys/class/power_supply/battery/charge_full_design"@,
                "/sys/class/qcom-battery/fg1_design_capacity"@,
                "/sys/class/qcom-battery/fg2_design_capacity"@,
            ],
            IntNode::ChargeCounter => seq!["/sys/class/power_supply/battery/charge_counter"@],
            IntNode::CycleCount => seq![
                "/sys/class/qcom-battery/fg1_cycle"@,
                "/sys/class/power_supply/battery/cycle_count"@,
            ],
            IntNode::Cell1Vol => seq!["/sys/class/qcom-battery/fg1_cell1_vol"@],
            IntNode::Cell2Vol => seq!["/sys/class/qcom-battery/fg1_cell2_vol"@],
            IntNode::Cell1Rascale => seq!["/sys/class/qcom-battery/fg1_cell1_rascale"@],
            IntNode::InputCurrentMax => seq![
                "/sys/class/qcom-battery/fg1_current_max"@,
                "/sys/class/qcom-battery/constant_power"@,
                "/sys/class/power_supply/usb_main/constant_charge_current_max"@,
                "/sys/class/power_supply/usb/current_max"@,
                "/sys/class/power_supply/usb_main/input_current_max"@,
                "/sys/class/qcom-battery/restrict_cur"@,
            ],
            IntNode::InputVoltageMax => seq!["/sys/class/power_supply/usb/voltage_max"@],
            IntNode::InputCurrentSettled => seq![
                "/sys/class/power_supply/main/input_current_settled"@,
                "/sys/class/power_supply/usb/input_current_settled"@,
            ],
            IntNode::InputVoltageSettled => seq![
                "/sys/class/power_supply/main/input_voltage_settled"@,
                "/sys/class/power_supply/usb/input_voltage_settled"@,
            ],
            IntNode::FastchgMode => seq![
                "/sys/class/qcom-battery/fastchg_mode"@,
                "/sys/class/power_supply/bms/fastcharge_mode"@,
            ],
            IntNode::SportMode => seq!["/sys/class/qcom-battery/sport_mode"@],
            IntNode::PdVerified => seq![
                "/sys/class/qcom-battery/pd_verifed"@,
                "/sys/class/power_supply/usb/pd_authentication"@,
                "/sys/class/subpmic-battery/pd_verifed"@,
                "/sys/class/Charging_Adapter/pd_adapter/usbpd_verifed"@,
            ],
            IntNode::CpOnline => seq![
                "/sys/class/power_supply/cp/online"@,
                "/sys/class/qcom-battery/bq2597x_chip_ok"@,
                "/sys/class/qcom-battery/master_smb1396_online"@,
                "/sys/class/qcom-battery/slave_smb1396_online"@,
            ],
            IntNode::CpMasterIin => seq!["/sys/class/qcom-battery/master_smb1396_iin"@],
            IntNode::CpSlaveIin => seq!["/sys/class/qcom-battery/slave_smb1396_iin"@],
            IntNode::RemainingTime => seq![
                "/sys/class/qcom-battery/remaining_time"@,
                "/sys/class/power_supply/battery/time_to_full_now"@,
            ],
            IntNode::RestrictChg => seq!["/sys/class/qcom-battery/restrict_chg"@],
            IntNode::InputSuspend => seq![
                "/sys/class/power_supply/battery/input_suspend"@,
                "/sys/class/qcom-battery/input_suspend"@,
            ],
            IntNode::SmartChg => seq!["/sys/class/qcom-battery/smart_chg"@],
            IntNode::NightCharging => seq!["/sys/class/qcom-battery/night_charging"@],
            IntNode::SmartBatt => seq!["/sys/class/qcom-battery/smart_batt"@],
            IntNode::DieTemperature => seq!["/sys/class/qcom-battery/die_temperature"@],
            IntNode::SlaveDieTemperature => seq![
                "/sys/class/qcom-battery/slave_die_temperature"@,
            ],
            IntNode::ThermalBoardTemp => seq!["/sys/class/qcom-battery/thermal_board_temp"@],
            IntNode::BattContOnline => seq!["/sys/class/qcom-battery/battcont_online"@],
            IntNode::MaxLifeTemp => seq!["/sys/class/qcom-battery/max_life_temp"@],
            IntNode::MaxLifeVol => seq!["/sys/class/qcom-battery/max_life_vol"@],
            IntNode::OverVolDuration => seq!["/sys/class/qcom-battery/over_vol_duration"@],
            IntNode::MoistureStatus => seq![
                "/sys/class/qcom-battery/moisture_detection_status"@,
            ],
            IntNode::FlashActive => seq!["/sys/class/qcom-battery/flash_active"@],
            IntNode::HifiConnect => seq!["/sys/class/qcom-battery/hifi_connect"@],
            IntNode::VbusDisable => seq!["/sys/class/qcom-battery/vbus_disable"@],
            IntNode::OtgUiSupport => seq!["/sys/class/qcom-battery/otg_ui_support"@],
            IntNode::FakeSoc => seq!["/sys/class/qcom-battery/fake_soc"@],
            IntNode::FakeSoh => seq!["/sys/class/qcom-battery/fake_soh"@],
            IntNode::FakeCycle => seq!["/sys/class/qcom-battery/fake_cycle"@],
            IntNode::FakeTemp => seq!["/sys/class/qcom-battery/fake_temp"@],
            IntNode::PcPortOnline => seq![
                "/sys/class/power_supply/battery/pc_port_online"@,
                "/sys/class/power_supply/usb/pc_port_online"@,
                "/sys/class/qcom-battery/pc_port_online"@,
            ],
            IntNode::AdapterPower => seq![
                "/sys/class/qcom-battery/apdo_max"@,
                "/sys/class/qcom-battery/power_max"@,
                "/sys/class/power_supply/usb/apdo_max"@,
                "/sys/class/power_supply/usb/power_max"@,
                "/sys/class/qcom-battery/referance_power"@,
            ],
            IntNode::ConstantPower => seq!["/sys/class/qcom-battery/constant_power"@],
            IntNode::UiSocDecimal => seq![
                "/proc/ui_soc_decimal"@,
                "/sys/class/power_supply/bms/soc_decimal"@,
                "/sys/class/qcom-battery/soc_decimal"@,
            ],
            IntNode::UiSocDecimalRate => seq![
                "/sys/class/power_supply/bms/soc_decimal_rate"@,
                "/sys/class/qcom-battery/soc_decimal_rate"@,
            ],
            IntNode::ChargeControlLimitMax => seq![
                "/sys/class/power_supply/battery/charge_control_limit_max"@,
                "/sys/class/qcom-battery/charge_control_limit_max"@,
            ],
        }
    }

    /// The candidate nodes, the preferred one first.
    pub fn paths(self) -> (r: Vec<&'static str>)
        ensures
            views(r@) == self.spec_paths(),
    {
        let paths: Vec<&'static str> = match self {
            IntNode::UsbOnline => vec!["/sys/class/power_supply/usb/online"],
            IntNode::AcOnline => vec!["/sys/class/power_supply/ac/online"],
            IntNode::WirelessOnline => vec![
                "/sys/class/power_supply/wireless/online",
                "/sys/class/power_supply/dc/online",
            ],
            IntNode::UsbVoltageNow => vec!["/sys/class/power_supply/usb/voltage_now"],
            IntNode::CpBusVoltage => vec!["/sys/class/qcom-battery/bq2597x_bus_voltage"],
            IntNode::CpBusCurrent => vec!["/sys/class/qcom-battery/bq2597x_bus_current"],
            IntNode::UsbCurrentNow => vec![
                "/sys/class/power_supply/usb/current_now",
                "/sys/class/power_supply/usb/input_current_now",
            ],
            IntNode::UsbTemp => vec![
                "/sys/class/qcom-battery/connector_temp",
                "/sys/class/power_supply/usb/usb_temp",
            ],
            IntNode::ConnectorTemp => vec![
                "/sys/class/qcom-battery/connector_temp",
                "/sys/class/power_supply/usb/usb_temp",
            ],
            IntNode::CcOrientation => vec!["/sys/class/qcom-battery/cc_orientation"],
            IntNode::BatteryTemp => vec!["/sys/class/power_supply/battery/temp"],
            IntNode::BatteryCurrentNow => vec![
                "/sys/class/power_supply/battery/current_now",
            ],
            IntNode::BatteryVoltageNow => vec![
                "/sys/class/power_supply/battery/voltage_now",
            ],
            IntNode::BatteryCapacity => vec![
                "/sys/class/power_supply/battery/capacity",
                "/sys/class/qcom-battery/fg1_rsoc",
            ],
            IntNode::FgFcc => vec!["/sys/class/power_supply/battery/batt_fcc"],
            IntNode::ChargeFull => vec![
                "/sys/class/power_supply/battery/batt_fcc",
                "/sys/class/qcom-battery/fg1_fcc",
                "/sys/class/power_supply/battery/charge_full",
            ],
            IntNode::FgRm => vec!["/sys/class/power_supply/battery/batt_rm"],
            IntNode::FgRsoc => vec!["/sys/class/qcom-battery/fg1_rsoc"],
            IntNode::FgCycle => vec!["/sys/class/qcom-battery/fg1_cycle"],
            IntNode::FgSoh => vec![
                "/sys/class/qcom-battery/fg1_soh",
                "/sys/class/qcom-battery/soh",
                "/sys/class/power_supply/bms/soh",
            ],
            IntNode::FgQmax => vec![
                "/sys/class/qcom-battery/fg1_qmax",
                "/sys/class/power_supply/battery/qmax",
            ],
            IntNode::FgAi => vec!["/sys/class/qcom-battery/fg1_ai"],
            IntNode::FgAvgCurrent => vec!["/sys/class/qcom-battery/fg1_avg_current"],
            IntNode::ChargeFullDesign => vec![
                "/sys/class/power_supply/battery/charge_full_design",
                "/sys/class/qcom-battery/fg1_design_capacity",
                "/sys/class/qcom-battery/fg2_design_capacity",
            ],
            IntNode::ChargeCounter => vec!["/sys/class/power_supply/battery/charge_counter"],
            IntNode::CycleCount => vec![
                "/sys/class/qcom-battery/fg1_cycle",
                "/sys/class/power_supply/battery/cycle_count",
            ],
            IntNode::Cell1Vol => vec!["/sys/class/qcom-battery/fg1_cell1_vol"],
            IntNode::Cell2Vol => vec!["/sys/class/qcom-battery/fg1_cell2_vol"],
            IntNode::Cell1Rascale => vec!["/sys/class/qcom-battery/fg1_cell1_rascale"],
            IntNode::InputCurrentMax => vec![
                "/sys/class/qcom-battery/fg1_current_max",
                "/sys/class/qcom-battery/constant_power",
                "/sys/class/power_supply/usb_main/constant_charge_current_max",
                "/sys/class/power_supply/usb/current_max",
                "/sys/class/power_supply/usb_main/input_current_max",
                "/sys/class/qcom-battery/restrict_cur",
            ],
            IntNode::InputVoltageMax => vec!["/sys/class/power_supply/usb/voltage_max"],
            IntNode::InputCurrentSettled => vec![
                "/sys/class/power_supply/main/input_current_settled",
                "/sys/class/power_supply/usb/input_current_settled",
            ],
            IntNode::InputVoltageSettled => vec![
                "/sys/class/power_supply/main/input_voltage_settled",
                "/sys/class/power_supply/usb/input_voltage_settled",
            ],
            IntNode::FastchgMode => vec![
                "/sys/class/qcom-battery/fastchg_mode",
                "/sys/class/power_supply/bms/fastcharge_mode",
            ],
            IntNode::SportMode => vec!["/sys/class/qcom-battery/sport_mode"],
            IntNode::PdVerified => vec![
                "/sys/class/qcom-battery/pd_verifed",
                "/sys/class/power_supply/usb/pd_authentication",
                "/sys/class/subpmic-battery/pd_verifed",
                "/sys/class/Charging_Adapter/pd_adapter/usbpd_verifed",
            ],
            IntNode::CpOnline => vec![
                "/sys/class/power_supply/cp/online",
                "/sys/class/qcom-battery/bq2597x_chip_ok",
                "/sys/class/qcom-battery/master_smb1396_online",
                "/sys/class/qcom-battery/slave_smb1396_online",
            ],
            IntNode::CpMasterIin => vec!["/sys/class/qcom-battery/master_smb1396_iin"],
            IntNode::CpSlaveIin => vec!["/sys/class/qcom-battery/slave_smb1396_iin"],
            IntNode::RemainingTime => vec![
                "/sys/class/qcom-battery/remaining_time",
                "/sys/class/power_supply/battery/time_to_full_now",
            ],
            IntNode::RestrictChg => vec!["/sys/class/qcom-battery/restrict_chg"],
            IntNode::InputSuspend => vec![
                "/sys/class/power_supply/battery/input_suspend",
                "/sys/class/qcom-battery/input_suspend",
            ],
            IntNode::SmartChg => vec!["/sys/class/qcom-battery/smart_chg"],
            IntNode::NightCharging => vec!["/sys/class/qcom-battery/night_charging"],
            IntNode::SmartBatt => vec!["/sys/class/qcom-battery/smart_batt"],
            IntNode::DieTemperature => vec!["/sys/class/qcom-battery/die_temperature"],
            IntNode::SlaveDieTemperature => vec![
                "/sys/class/qcom-battery/slave_die_temperature",
            ],
            IntNode::ThermalBoardTemp => vec!["/sys/class/qcom-battery/thermal_board_temp"],
            IntNode::BattContOnline => vec!["/sys/class/qcom-battery/battcont_online"],
            IntNode::MaxLifeTemp => vec!["/sys/class/qcom-battery/max_life_temp"],
            IntNode::MaxLifeVol => vec!["/sys/class/qcom-battery/max_life_vol"],
            IntNode::OverVolDuration => vec!["/sys/class/qcom-battery/over_vol_duration"],
            IntNode::MoistureStatus => vec![
                "/sys/class/qcom-battery/moisture_detection_status",
            ],
            IntNode::FlashActive => vec!["/sys/class/qcom-battery/flash_active"],
            IntNode::HifiConnect => vec!["/sys/class/qcom-battery/hifi_connect"],
            IntNode::VbusDisable => vec!["/sys/class/qcom-battery/vbus_disable"],
            IntNode::OtgUiSupport => vec!["/sys/class/qcom-battery/otg_ui_support"],
            IntNode::FakeSoc => vec!["/sys/class/qcom-battery/fake_soc"],
            IntNode::FakeSoh => vec!["/sys/class/qcom-battery/fake_soh"],
            IntNode::FakeCycle => vec!["/sys/class/qcom-battery/fake_cycle"],
            IntNode::FakeTemp => vec!["/sys/class/qcom-battery/fake_temp"],
            IntNode::PcPortOnline => vec![
                "/sys/class/power_supply/battery/pc_port_online",
                "/sys/class/power_supply/usb/pc_port_online",
                "/sys/class/qcom-battery/pc_port_online",
            ],
            IntNode::AdapterPower => vec![
                "/sys/class/qcom-battery/apdo_max",
                "/sys/class/qcom-battery/power_max",
                "/sys/class/power_supply/usb/apdo_max",
                "/sys/class/power_supply/usb/power_max",
                "/sys/class/qcom-battery/referance_power",
            ],
            IntNode::ConstantPower => vec!["/sys/class/qcom-battery/constant_power"],
            IntNode::UiSocDecimal => vec![
                "/proc/ui_soc_decimal",
                "/sys/class/power_supply/bms/soc_decimal",
                "/sys/class/qcom-battery/soc_decimal",
            ],
            IntNode::UiSocDecimalRate => vec![
                "/sys/class/power_supply/bms/soc_decimal_rate",
                "/sys/class/qcom-battery/soc_decimal_rate",
            ],
            IntNode::ChargeControlLimitMax => vec![
                "/sys/class/power_supply/battery/charge_control_limit_max",
                "/sys/class/qcom-battery/charge_control_limit_max",
            ],
        };
        assert(views(paths@) =~= self.spec_paths());
        paths
    }
}

impl TextNode {
    /// The candidate nodes, the preferred one first.
    pub open spec fn spec_paths(self) -> Seq<Seq<char>> {
        match self {
            TextNode::UsbType => seq!["/sys/class/power_supply/usb/type"@],
            TextNode::WirelessType => seq!["/sys/class/qcom-battery/wireless_type"@],
            TextNode::UsbRealType => seq![
                "/sys/class/qcom-battery/real_type"@,
                "/sys/class/power_supply/usb/real_type"@,
                "/sys/class/qcom-battery/usb_real_type"@,
            ],
            TextNode::TypecMode => seq!["/sys/class/qcom-battery/typec_mode"@],
            TextNode::BatteryStatus => seq!["/sys/class/power_supply/battery/status"@],
            TextNode::BatteryHealth => seq!["/sys/class/power_supply/battery/health"@],
            TextNode::BatteryChargeType => seq![
                "/sys/class/power_supply/battery/charge_type"@,
            ],
            TextNode::BatteryTechnology => seq!["/sys/class/power_supply/battery/technology"@],
            TextNode::FgVendor => seq!["/sys/class/qcom-battery/fg_vendor"@],
            TextNode::BatteryType => seq![
                "/sys/class/power_supply/battery/battery_type"@,
                "/sys/class/power_supply/battery/technology"@,
            ],
            TextNode::CurrentState => seq!["/sys/class/qcom-battery/current_state"@],
            TextNode::QuickChargeType => seq![
                "/sys/class/qcom-battery/quick_charge_type"@,
                "/sys/class/power_supply/usb/quick_charge_type"@,
                "/sys/class/power_supply/battery/quick_charge_type"@,
            ],
            TextNode::CpStatus => seq!["/sys/class/power_supply/cp/status"@],
            TextNode::BattSn => seq![
                "/sys/class/power_supply/battery/battery_sn"@,
                "/sys/class/qcom-battery/batt_sn"@,
                "/sys/class/power_supply/bms/serial_number"@,
                "/sys/class/power_supply/battery/serial_number"@,
            ],
        }
    }

    /// The candidate nodes, the preferred one first.
    pub fn paths(self) -> (r: Vec<&'static str>)
        ensures
            views(r@) == self.spec_paths(),
    {
        let paths: Vec<&'static str> = match self {
            TextNode::UsbType => vec!["/sys/class/power_supply/usb/type"],
            TextNode::WirelessType => vec!["/sys/class/qcom-battery/wireless_type"],
            TextNode::UsbRealType => vec![
                "/sys/class/qcom-battery/real_type",
                "/sys/class/power_supply/usb/real_type",
                "/sys/class/qcom-battery/usb_real_type",
            ],
            TextNode::TypecMode => vec!["/sys/class/qcom-battery/typec_mode"],
            TextNode::BatteryStatus => vec!["/sys/class/power_supply/battery/status"],
            TextNode::BatteryHealth => vec!["/sys/class/power_supply/battery/health"],
            TextNode::BatteryChargeType => vec![
                "/sys/class/power_supply/battery/charge_type",
            ],
            TextNode::BatteryTechnology => vec!["/sys/class/power_supply/battery/technology"],
            TextNode::FgVendor => vec!["/sys/class/qcom-battery/fg_vendor"],
            TextNode::BatteryType => vec![
                "/sys/class/power_supply/battery/battery_type",
                "/sys/class/power_supply/battery/technology",
            ],
            TextNode::CurrentState => vec!["/sys/class/qcom-battery/current_state"],
            TextNode::QuickChargeType => vec![
                "/sys/class/qcom-battery/quick_charge_type",
                "/sys/class/power_supply/usb/quick_charge_type",
                "/sys/class/power_supply/battery/quick_charge_type",
            ],
            TextNode::CpStatus => vec!["/sys/class/power_supply/cp/status"],
            TextNode::BattSn => vec![
                "/sys/class/power_supply/battery/battery_sn",
                "/sys/class/qcom-battery/batt_sn",
                "/sys/class/power_supply/bms/serial_number",
                "/sys/class/power_supply/battery/serial_number",
            ],
        };
        assert(views(paths@) =~= self.spec_paths());
        paths
    }
}

impl WriteNode {
    /// The nodes that take the value, each that exists.
    pub open spec fn spec_paths(self) -> Seq<Seq<char>> {
        match self {
            WriteNode::ChargeControlLimit => seq![
                "/sys/class/power_supply/battery/charge_control_limit"@,
                "/sys/class/qcom-battery/charge_control_limit"@,
            ],
            WriteNode::CoolMode => seq![
                "/sys/class/power_supply/main/cool_mode"@,
                "/sys/class/qcom-battery/cool_mode"@,
            ],
            WriteNode::CoolDown => seq!["/sys/class/power_supply/battery/cool_down"@],
            WriteNode::ChargeStopThreshold => seq![
                "/sys/class/power_supply/battery/charge_limit"@,
                "/sys/class/qcom-battery/charge_limit"@,
                "/sys/class/power_supply/battery/charge_control_end_threshold"@,
                "/sys/class/power_supply/battery/charge_stop_threshold"@,
            ],
            WriteNode::ChargeLimitState => seq![
                "/sys/class/power_supply/battery/smart_chg"@,
                "/sys/class/qcom-battery/smart_chg"@,
                "/sys/class/power_supply/battery/night_charging"@,
                "/sys/class/qcom-battery/night_charging"@,
            ],
            WriteNode::BypassStatus => seq![
                "/sys/class/power_supply/battery/bypass_charging"@,
                "/sys/class/qcom-battery/bypass_charging"@,
                "/sys/class/power_supply/battery/bypass_charge"@,
                "/sys/class/qcom-battery/bypass_charge"@,
                "/sys/class/power_supply/battery/charge_bypass"@,
                "/sys/class/qcom-battery/charge_bypass"@,
            ],
        }
    }

    /// The nodes that take the value, each that exists.
    pub fn paths(self) -> (r: Vec<&'static str>)
        ensures
            views(r@) == self.spec_paths(),
    {
        let paths: Vec<&'static str> = match self {
            WriteNode::ChargeControlLimit => vec![
                "/sys/class/power_supply/battery/charge_control_limit",
                "/sys/class/qcom-battery/charge_control_limit",
            ],
            WriteNode::CoolMode => vec![
                "/sys/class/power_supply/main/cool_mode",
                "/sys/class/qcom-battery/cool_mode",
            ],
            WriteNode::CoolDown => vec!["/sys/class/power_supply/battery/cool_down"],
            WriteNode::ChargeStopThreshold => vec![
                "/sys/class/power_supply/battery/charge_limit",
                "/sys/class/qcom-battery/charge_limit",
                "/sys/class/power_supply/battery/charge_control_end_threshold",
                "/sys/class/power_supply/battery/charge_stop_threshold",
            ],
            WriteNode::ChargeLimitState => vec![
                "/sys/class/power_supply/battery/smart_chg",
                "/sys/class/qcom-battery/smart_chg",
                "/sys/class/power_supply/battery/night_charging",
                "/sys/class/qcom-battery/night_charging",
            ],
            WriteNode::BypassStatus => vec![
                "/sys/class/power_supply/battery/bypass_charging",
                "/sys/class/qcom-battery/bypass_charging",
                "/sys/class/power_supply/battery/bypass_charge",
                "/sys/class/qcom-battery/bypass_charge",
                "/sys/class/power_supply/battery/charge_bypass",
                "/sys/class/qcom-battery/charge_bypass",
            ],
        };
        assert(views(paths@) =~= self.spec_paths());
        paths
    }
}

// ── contents of one node ──

/// The integer that the contents of a node write; `None` for a node that cannot
/// be read and for contents of another kind.
pub open spec fn node_int(contents: Option<Seq<char>>) -> Option<i32> {
    match contents {
        Some(s) => match as_i64(trimmed(s)) {
            Some(v) => Some(as_clamped_i32(v as int)),
            None => None,
        },
        None => None,
    }
}

/// The text in a node; `None` for a node that cannot be read and for one that
/// holds white space alone.
pub open spec fn node_text(contents: Option<Seq<char>>) -> Option<Seq<char>> {
    match contents {
        Some(s) => if trimmed(s).len() > 0 {
            Some(trimmed(s))
        } else {
            None
        },
        None => None,
    }
}

pub open spec fn opt_view(s: Option<&str>) -> Option<Seq<char>> {
    match s {
        Some(s) => Some(s@),
        None => None,
    }
}

pub open spec fn opt_string_view(s: Option<String>) -> Option<Seq<char>> {
    match s {
        Some(s) => Some(s@),
        None => None,
    }
}

pub fn try_read_int(contents: Option<&str>) -> (r: Option<i32>)
    ensures
        r == node_int(opt_view(contents)),
{
    match contents {
        Some(s) => match parse_i64(trim(s)) {
            Some(v) => Some(clamp_i64_to_i32(v)),
            None => None,
        },
        None => None,
    }
}

pub fn try_read_text(contents: Option<&str>) -> (r: Option<String>)
    ensures
        opt_string_view(r) == node_text(opt_view(contents)),
{
    match contents {
        Some(s) => {
            let value: &str = trim(s);
            if !value.is_empty() {
                Some(value.to_owned())
            } else {
                None
            }
        },
        None => None,
    }
}

// ── candidate nodes ──

/// `v` is a value; where only a positive one counts, it is positive.
pub open spec fn counts(v: Option<i32>, positive: bool) -> bool {
    match v {
        Some(v) => !positive || v > 0,
        None => false,
    }
}

/// The first integer among the contents of candidate nodes.
pub open spec fn first_node_int(offered: Seq<Option<Seq<char>>>, positive: bool) -> Option<i32>
    decreases offered.len(),
{
    if offered.len() == 0 {
        None
    } else if counts(node_int(offered[0]), positive) {
        node_int(offered[0])
    } else {
        first_node_int(offered.drop_first(), positive)
    }
}

/// The first text among the contents of candidate nodes.
pub open spec fn first_node_text(offered: Seq<Option<Seq<char>>>) -> Option<Seq<char>>
    decreases offered.len(),
{
    if offered.len() == 0 {
        None
    } else if node_text(offered[0]) is Some {
        node_text(offered[0])
    } else {
        first_node_text(offered.drop_first())
    }
}

pub(crate) proof fn lemma_first_node_int_push(
    offered: Seq<Option<Seq<char>>>,
    next: Option<Seq<char>>,
    positive: bool,
)
    ensures
        first_node_int(offered.push(next), positive) == match first_node_int(offered, positive) {
            Some(v) => Some(v),
            None => if counts(node_int(next), positive) {
                node_int(next)
            } else {
                None
            },
        },
    decreases offered.len(),
{
    let all = offered.push(next);
    if offered.len() == 0 {
        assert(all.drop_first() =~= Seq::<Option<Seq<char>>>::empty());
        assert(first_node_int(all.drop_first(), positive) is None);
    } else {
        lemma_first_node_int_push(offered.drop_first(), next, positive);
        assert(all.drop_first() =~= offered.drop_first().push(next));
    }
}

proof fn lemma_first_node_text_push(offered: Seq<Option<Seq<char>>>, next: Option<Seq<char>>)
    ensures
        first_node_text(offered.push(next)) == match first_node_text(offered) {
            Some(v) => Some(v),
            None => node_text(next),
        },
    decreases offered.len(),
{
    let all = offered.push(next);
    if offered.len() == 0 {
        assert(all.drop_first() =~= Seq::<Option<Seq<char>>>::empty());
        assert(first_node_text(all.drop_first()) is None);
    } else {
        lemma_first_node_text_push(offered.drop_first(), next);
        assert(all.drop_first() =~= offered.drop_first().push(next));
    }
}

impl IntNode {
    /// Only a positive value counts.
    pub open spec fn is_positive(self) -> bool {
        self == IntNode::AdapterPower
    }
}

/// A query for an integer metric.
pub struct IntQuery {
    node: IntNode,
    paths: Vec<&'static str>,
    next: usize,
    found: Option<i32>,
    offered: Ghost<Seq<Option<Seq<char>>>>,
}

impl IntQuery {
    pub closed spec fn node(self) -> IntNode {
        self.node
    }

    /// The contents of the candidates up to now, in order.
    pub closed spec fn offered(self) -> Seq<Option<Seq<char>>> {
        self.offered@
    }

    /// The query has its value, or no candidate is left.
    pub open spec fn settled(self) -> bool {
        first_node_int(self.offered(), self.node().is_positive()) is Some || self.offered().len()
            == self.node().spec_paths().len()
    }

    pub closed spec fn well_formed(self) -> bool {
        &&& views(self.paths@) == self.node.spec_paths()
        &&& self.next == self.offered@.len()
        &&& self.next <= self.paths@.len()
        &&& self.found == first_node_int(self.offered@, self.node.is_positive())
    }

    pub fn new(node: IntNode) -> (r: Self)
        ensures
            r.well_formed(),
            r.node() == node,
            r.offered() == Seq::<Option<Seq<char>>>::empty(),
    {
        IntQuery { node, paths: node.paths(), next: 0, found: None, offered: Ghost(Seq::empty()) }
    }

    /// The candidate to read next; `None` once the query is settled.
    pub fn next_path(&self) -> (r: Option<&'static str>)
        requires
            self.well_formed(),
        ensures
            r is None <==> self.settled(),
            r matches Some(path) ==> path@ == self.node().spec_paths()[self.offered().len() as int],
    {
        proof {
            assert(views(self.paths@).len() == self.paths@.len());
        }
        match self.found {
            Some(_) => None,
            None => if self.next < self.paths.len() {
                assert(views(self.paths@)[self.next as int] == self.paths@[self.next as int]@);
                Some(self.paths[self.next])
            } else {
                None
            },
        }
    }

    /// Takes the contents of the candidate that [`Self::next_path`] names;
    /// `None` where it cannot be read.
    pub fn offer(&mut self, contents: Option<&str>)
        requires
            old(self).well_formed(),
            !old(self).settled(),
        ensures
            final(self).well_formed(),
            final(self).node() == old(self).node(),
            final(self).offered() == old(self).offered().push(opt_view(contents)),
    {
        let positive: bool = match self.node {
            IntNode::AdapterPower => true,
            _ => false,
        };
        proof {
            assert(views(self.paths@).len() == self.paths@.len());
            lemma_first_node_int_push(self.offered@, opt_view(contents), positive);
        }
        if let Some(v) = try_read_int(contents) {
            if !positive || v > 0 {
                self.found = Some(v);
            }
        }
        self.next = self.next + 1;
        self.offered = Ghost(self.offered@.push(opt_view(contents)));
    }

    /// The first integer among the candidates read.
    pub fn value(&self) -> (r: Option<i32>)
        requires
            self.well_formed(),
        ensures
            r == first_node_int(self.offered(), self.node().is_positive()),
    {
        self.found
    }
}

/// A query for a text metric.
pub struct TextQuery {
    node: TextNode,
    paths: Vec<&'static str>,
    next: usize,
    found: Option<String>,
    offered: Ghost<Seq<Option<Seq<char>>>>,
}

impl TextQuery {
    pub closed spec fn node(self) -> TextNode {
        self.node
    }

    /// The contents of the candidates up to now, in order.
    pub closed spec fn offered(self) -> Seq<Option<Seq<char>>> {
        self.offered@
    }

    /// The query has its value, or no candidate is left.
    pub open spec fn settled(self) -> bool {
        first_node_text(self.offered()) is Some || self.offered().len()
            == self.node().spec_paths().len()
    }

    pub closed spec fn well_formed(self) -> bool {
        &&& views(self.paths@) == self.node.spec_paths()
        &&& self.next == self.offered@.len()
        &&& self.next <= self.paths@.len()
        &&& opt_string_view(self.found) == first_node_text(self.offered@)
    }

    pub fn new(node: TextNode) -> (r: Self)
        ensures
            r.well_formed(),
            r.node() == node,
            r.offered() == Seq::<Option<Seq<char>>>::empty(),
    {
        TextQuery { node, paths: node.paths(), next: 0, found: None, offered: Ghost(Seq::empty()) }
    }

    /// The candidate to read next; `None` once the query is settled.
    pub fn next_path(&self) -> (r: Option<&'static str>)
        requires
            self.well_formed(),
        ensures
            r is None <==> self.settled(),
            r matches Some(path) ==> path@ == self.node().spec_paths()[self.offered().len() as int],
    {
        proof {
            assert(views(self.paths@).len() == self.paths@.len());
        }
        match &self.found {
            Some(_) => None,
            None => if self.next < self.paths.len() {
                assert(views(self.paths@)[self.next as int] == self.paths@[self.next as int]@);
                Some(self.paths[self.next])
            } else {
                None
            },
        }
    }

    /// Takes the contents of the candidate that [`Self::next_path`] names;
    /// `None` where it cannot be read.
    pub fn offer(&mut self, contents: Option<&str>)
        requires
            old(self).well_formed(),
            !old(self).settled(),
        ensures
            final(self).well_formed(),
            final(self).node() == old(self).node(),
            final(self).offered() == old(self).offered().push(opt_view(contents)),
    {
        proof {
            assert(views(self.paths@).len() == self.paths@.len());
            lemma_first_node_text_push(self.offered@, opt_view(contents));
        }
        self.found = try_read_text(contents);
        self.next = self.next + 1;
        self.offered = Ghost(self.offered@.push(opt_view(contents)));
    }

    /// The first text among the candidates read.
    pub fn value(self) -> (r: Option<String>)
        requires
            self.well_formed(),
        ensures
            opt_string_view(r) == first_node_text(self.offered()),
    {
        self.found
    }
}

// ── targets ──

/// A value that could not be read leaves the known one in place.
pub fn update_int(target: &mut i32, reading: Option<i32>)
    ensures
        *final(target) == match reading {
            Some(v) => v,
            None => *old(target),
        },
{
    if let Some(v) = reading {
        *target = v;
    }
}

/// A text that could not be read leaves the known one in place.
pub fn update_text(target: &mut String, reading: Option<String>)
    ensures
        final(target)@ == match reading {
            Some(v) => v@,
            None => old(target)@,
        },
{
    if let Some(v) = reading {
        *target = v;
    }
}

/// The value that was read, or 0.
pub fn int_reading_or_zero(reading: Option<i32>) -> (r: i32)
    ensures
        r == match reading {
            Some(v) => v,
            None => 0,
        },
{
    match reading {
        Some(v) => v,
        None => 0,
    }
}

/// The text that was read, or the empty one.
pub fn text_reading_or_empty(reading: Option<String>) -> (r: String)
    ensures
        r@ == match reading {
            Some(v) => v@,
            None => Seq::empty(),
        },
{
    match reading {
        Some(v) => v,
        None => String::new(),
    }
}

// ── laws ──

/// Candidates that cannot be read, or hold no integer that counts, are passed
/// over.
pub proof fn unreadable_ints_are_skipped(
    unreadable: Seq<Option<Seq<char>>>,
    rest: Seq<Option<Seq<char>>>,
    positive: bool,
)
    requires
        forall|i: int|
            0 <= i < unreadable.len() ==> !counts(node_int(#[trigger] unreadable[i]), positive),
    ensures
        first_node_int(unreadable + rest, positive) == first_node_int(rest, positive),
    decreases unreadable.len(),
{
    let all = unreadable + rest;
    if unreadable.len() == 0 {
        assert(all =~= rest);
    } else {
        assert(all[0] == unreadable[0]);
        assert(all.drop_first() =~= unreadable.drop_first() + rest);
        unreadable_ints_are_skipped(unreadable.drop_first(), rest, positive);
    }
}

/// Candidates that cannot be read, or are blank, are passed over.
pub proof fn unreadable_texts_are_skipped(
    unreadable: Seq<Option<Seq<char>>>,
    rest: Seq<Option<Seq<char>>>,
)
    requires
        forall|i: int| 0 <= i < unreadable.len() ==> node_text(#[trigger] unreadable[i]) is None,
    ensures
        first_node_text(unreadable + rest) == first_node_text(rest),
    decreases unreadable.len(),
{
    let all = unreadable + rest;
    if unreadable.len() == 0 {
        assert(all =~= rest);
    } else {
        assert(all[0] == unreadable[0]);
        assert(all.drop_first() =~= unreadable.drop_first() + rest);
        unreadable_texts_are_skipped(unreadable.drop_first(), rest);
    }
}

/// Once an integer is found, the candidates after it do not matter.
pub proof fn found_int_decides(
    found: Seq<Option<Seq<char>>>,
    rest: Seq<Option<Seq<char>>>,
    positive: bool,
)
    requires
        first_node_int(found, positive) is Some,
    ensures
        first_node_int(found + rest, positive) == first_node_int(found, positive),
    decreases found.len(),
{
    let all = found + rest;
    assert(all[0] == found[0]);
    if !counts(node_int(found[0]), positive) {
        assert(all.drop_first() =~= found.drop_first() + rest);
        found_int_decides(found.drop_first(), rest, positive);
    }
}

/// Once a text is found, the candidates after it do not matter.
pub proof fn found_text_decides(found: Seq<Option<Seq<char>>>, rest: Seq<Option<Seq<char>>>)
    requires
        first_node_text(found) is Some,
    ensures
        first_node_text(found + rest) == first_node_text(found),
    decreases found.len(),
{
    let all = found + rest;
    assert(all[0] == found[0]);
    if node_text(found[0]) is None {
        assert(all.drop_first() =~= found.drop_first() + rest);
        found_text_decides(found.drop_first(), rest);
    }
}

/// A number is read with white space around it or without, and one beyond the range
/// of 32 bits as the bound next to it; a text is read without the white space, and
/// white space alone as none.
pub proof fn contents_are_read(contents: Seq<char>, n: i64)
    ensures
        as_i64(trimmed(contents)) == Some(n) && i32::MIN <= n <= i32::MAX ==> node_int(
            Some(contents),
        ) == Some(n as i32),
        as_i64(trimmed(contents)) == Some(n) && n > i32::MAX ==> node_int(Some(contents)) == Some(
            i32::MAX,
        ),
        as_i64(trimmed(contents)) == Some(n) && n < i32::MIN ==> node_int(Some(contents)) == Some(
            i32::MIN,
        ),
        as_i64(trimmed(contents)) is None ==> node_int(Some(contents)) is None,
        node_int(None) is None,
        trimmed(contents).len() > 0 ==> node_text(Some(contents)) == Some(trimmed(contents)),
        trimmed(contents).len() == 0 ==> node_text(Some(contents)) is None,
        node_text(None) is None,
{
}

/// Only of the adapter power does a number have to be positive to count.
pub proof fn power_has_to_be_positive(node: IntNode, n: i32)
    ensures
        node.is_positive() <==> node == IntNode::AdapterPower,
        counts(Some(n), true) == (n > 0),
        counts(Some(n), false),
        !counts(None, true) && !counts(None, false),
{
}

/// Each control is written to its own nodes.
pub proof fn controls_have_their_nodes()
    ensures
        WriteNode::ChargeControlLimit.spec_paths() == seq![
            "/sys/class/power_supply/battery/charge_control_limit"@,
            "/sys/class/qcom-battery/charge_control_limit"@,
        ],
        WriteNode::CoolMode.spec_paths() == seq![
            "/sys/class/power_supply/main/cool_mode"@,
            "/sys/class/qcom-battery/cool_mode"@,
        ],
        WriteNode::CoolDown.spec_paths() == seq!["/sys/class/power_supply/battery/cool_down"@],
        WriteNode::ChargeStopThreshold.spec_paths() == seq![
            "/sys/class/power_supply/battery/charge_limit"@,
            "/sys/class/qcom-battery/charge_limit"@,
            "/sys/class/power_supply/battery/charge_control_end_threshold"@,
            "/sys/class/power_supply/battery/charge_stop_threshold"@,
        ],
        WriteNode::ChargeLimitState.spec_paths() == seq![
            "/sys/class/power_supply/battery/smart_chg"@,
            "/sys/class/qcom-battery/smart_chg"@,
            "/sys/class/power_supply/battery/night_charging"@,
            "/sys/class/qcom-battery/night_charging"@,
        ],
        WriteNode::BypassStatus.spec_paths() == seq![
            "/sys/class/power_supply/battery/bypass_charging"@,
            "/sys/class/qcom-battery/bypass_charging"@,
            "/sys/class/power_supply/battery/bypass_charge"@,
            "/sys/class/qcom-battery/bypass_charge"@,
            "/sys/class/power_supply/battery/charge_bypass"@,
            "/sys/class/qcom-battery/charge_bypass"@,
        ],
{
}

} // verus!
