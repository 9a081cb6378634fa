//! The texts that answer a client: lists of values in a fixed order.

use crate::adapter::Adapter;
use crate::battery::{
    best_battery_type_of, best_cycle_of, best_fcc_mah_of, best_rm_of, best_soh_of,
};
use crate::info::{ChargerInfo, ChargerInfoView};
use crate::snapshot::{snapshot_of, FastChargeSnapshot, FastChargeSnapshotView};
use crate::text::{
    contains, contains_text, decimal, eq_ignore_ascii_case, int_text, joined, keyed, lower_text,
    nat_text, text_eq, unicode_lower, Joiner,
};
use crate::units::{as_clamped_i32, capacity_mah, clamp_i64_to_i32, magnitude};
use vstd::prelude::*;

verus! {

/// What only fractional arithmetic gives: the full capacity in percent of the
/// design capacity, the battery current in mA with one decimal, and the battery
/// voltage in V with three.
#[derive(Debug)]
pub struct FractionalReadings {
    pub soh_ratio_percent: i32,
    pub current_ma: String,
    pub voltage_v: String,
}

/// [`FractionalReadings`] with its texts as character sequences.
#[verifier::ext_equal]
pub struct FractionalReadingsView {
    pub soh_ratio_percent: i32,
    pub current_ma: Seq<char>,
    pub voltage_v: Seq<char>,
}

impl View for FractionalReadings {
    type V = FractionalReadingsView;

    open spec fn view(&self) -> FractionalReadingsView {
        FractionalReadingsView {
            soh_ratio_percent: self.soh_ratio_percent,
            current_ma: self.current_ma@,
            voltage_v: self.voltage_v@,
        }
    }
}

/// The fractional readings of a battery of which nothing is known.
pub open spec fn zero_fractions() -> FractionalReadingsView {
    FractionalReadingsView {
        soh_ratio_percent: 0,
        current_ma: "0.0"@,
        voltage_v: "0.000"@,
    }
}

impl Default for FractionalReadings {
    fn default() -> (r: Self)
        ensures
            r@ == zero_fractions(),
    {
        FractionalReadings {
            soh_ratio_percent: 0,
            current_ma: "0.0".to_owned(),
            voltage_v: "0.000".to_owned(),
        }
    }
}

/// `n` tenths, with one decimal.
pub open spec fn tenths_text(n: int) -> Seq<char> {
    let size = magnitude(n);
    (if n < 0 {
        "-"@
    } else {
        Seq::empty()
    }) + nat_text((size / 10) as nat) + "."@ + nat_text((size % 10) as nat)
}

fn tenths(n: i32) -> (r: String)
    ensures
        r@ == tenths_text(n as int),
{
    let size: i64 = if n < 0 {
        -(n as i64)
    } else {
        n as i64
    };
    let mut out: String = String::new();
    if n < 0 {
        out.append("-");
    }
    let whole: String = decimal((size / 10) as i32);
    let tenth: String = decimal((size % 10) as i32);
    out.append(whole.as_str());
    out.append(".");
    out.append(tenth.as_str());
    assert(out@ =~= tenths_text(n as int));
    out
}

pub open spec fn flag(value: bool) -> i32 {
    if value {
        1
    } else {
        0
    }
}

fn flag_value(value: bool) -> (r: i32)
    ensures
        r == flag(value),
{
    if value {
        1
    } else {
        0
    }
}

pub open spec fn gauge_type_or_unknown(info: ChargerInfoView) -> Seq<char> {
    if info.gauge_type.len() == 0 {
        "unknown"@
    } else {
        info.gauge_type
    }
}

/// What the power source and the battery report of themselves.
pub open spec fn status_fields(
    info: ChargerInfoView,
    fractions: FractionalReadingsView,
) -> Seq<Seq<char>> {
    seq![
        keyed("usb_online"@, int_text(info.usb_online as int)),
        keyed("usb_type"@, info.usb_type),
        keyed("usb_real_type"@, info.usb_real_type),
        keyed("ac_online"@, int_text(info.ac_online as int)),
        keyed("pc_port"@, int_text(info.pc_port_online as int)),
        keyed("batt_status"@, info.battery_status),
        keyed("batt_health"@, info.battery_health),
        keyed("capacity"@, int_text(info.battery_capacity as int)),
        keyed("temp"@, tenths_text(info.battery_temp as int)),
        keyed("current"@, fractions.current_ma),
        keyed("voltage"@, fractions.voltage_v),
        keyed("charge_type"@, info.battery_charge_type),
        keyed("technology"@, info.battery_technology),
        keyed("battery_type"@, best_battery_type_of(info)),
    ]
}

/// The health, the charging and the capacities.
pub open spec fn charge_fields(
    info: ChargerInfoView,
    fractions: FractionalReadingsView,
) -> Seq<Seq<char>> {
    seq![
        keyed("soh"@, int_text(best_soh_of(info, fractions.soh_ratio_percent) as int)),
        keyed("fast_chg_type"@, info.fast_charge_type),
        keyed("charge_tech"@, info.charge_technology),
        keyed("wireless"@, int_text(info.wireless_online as int)),
        keyed("wireless_type"@, info.wireless_type),
        keyed("input_current"@, int_text(info.input_current_max as int)),
        keyed("charge_full"@, int_text(best_fcc_mah_of(info) as int)),
        keyed("fcc"@, int_text(best_fcc_mah_of(info) as int)),
        keyed("rm"@, int_text(capacity_mah(best_rm_of(info)) as int)),
        keyed("design_capacity"@, int_text(capacity_mah(info.charge_full_design) as int)),
        keyed("qmax"@, int_text(capacity_mah(info.fg_qmax) as int)),
        keyed("adapter_power"@, int_text(info.adapter_power_w as int)),
        keyed("cp_online"@, int_text(info.cp_online as int)),
        keyed("cp_iin_m"@, int_text(info.cp_master_iin as int)),
        keyed("cp_iin_s"@, int_text(info.cp_slave_iin as int)),
        keyed("pd_verified"@, int_text(info.pd_verified as int)),
        keyed("quick_charge_type"@, info.quick_charge_type),
        keyed("die_temp"@, int_text(info.die_temperature as int)),
        keyed("typec_mode"@, info.typec_mode),
        keyed("cc_orientation"@, int_text(info.cc_orientation as int)),
    ]
}

/// The connector, the switches, the gauge and the board.
pub open spec fn device_fields(info: ChargerInfoView) -> Seq<Seq<char>> {
    seq![
        keyed("remaining_time"@, int_text(info.remaining_time as int)),
        keyed("smart_chg"@, int_text(info.smart_chg as int)),
        keyed("night_chg"@, int_text(info.night_charging as int)),
        keyed("sport"@, int_text(info.sport_mode as int)),
        keyed("input_suspend"@, int_text(info.input_suspend as int)),
        keyed("moisture"@, int_text(flag(info.moisture_detected) as int)),
        keyed("cell1_v"@, int_text(info.cell1_vol as int)),
        keyed("cell2_v"@, int_text(info.cell2_vol as int)),
        keyed("fg_qmax"@, int_text(info.fg_qmax as int)),
        keyed("fg_ai"@, int_text(info.fg_ai as int)),
        keyed("fg_avg_cur"@, int_text(info.fg_avg_current as int)),
        keyed("fg_vendor"@, info.fg_vendor),
        keyed("authentic"@, int_text(info.authentic as int)),
        keyed("max_life_t"@, int_text(info.max_life_temp as int)),
        keyed("max_life_v"@, int_text(info.max_life_vol as int)),
        keyed("board_temp"@, int_text(info.thermal_board_temp as int)),
        keyed("flash"@, int_text(flag(info.flash_active) as int)),
        keyed("hifi"@, int_text(flag(info.hifi_connect) as int)),
        keyed("fake_soc"@, int_text(info.fake_soc as int)),
        keyed("fake_soh"@, int_text(info.fake_soh as int)),
    ]
}

/// The charger report: `key=value`, separated by semicolons.
#[verifier::opaque]
pub open spec fn charger_report(
    info: ChargerInfoView,
    fractions: FractionalReadingsView,
) -> Seq<char> {
    joined(
        status_fields(info, fractions) + charge_fields(info, fractions) + device_fields(info),
        ";"@,
    )
}

/// The health and the gauge.
pub open spec fn soh_fields(
    info: ChargerInfoView,
    fractions: FractionalReadingsView,
) -> Seq<Seq<char>> {
    seq![
        keyed("soh"@, int_text(best_soh_of(info, fractions.soh_ratio_percent) as int)),
        keyed("charge_full"@, int_text(best_fcc_mah_of(info) as int)),
        keyed("charge_full_design"@, int_text(capacity_mah(info.charge_full_design) as int)),
        keyed("charge_counter"@, int_text(capacity_mah(info.charge_counter) as int)),
        keyed("fcc"@, int_text(best_fcc_mah_of(info) as int)),
        keyed("rm"@, int_text(capacity_mah(best_rm_of(info)) as int)),
        keyed("design_capacity"@, int_text(capacity_mah(info.charge_full_design) as int)),
        keyed("qmax"@, int_text(capacity_mah(info.fg_qmax) as int)),
        keyed("cycle"@, int_text(best_cycle_of(info) as int)),
        keyed("battery_type"@, best_battery_type_of(info)),
        keyed("gauge_type"@, gauge_type_or_unknown(info)),
        keyed("capacity"@, int_text(info.battery_capacity as int)),
        keyed("temp"@, int_text(info.battery_temp as int)),
        keyed("status"@, info.battery_status),
        keyed("fg_soh"@, int_text(info.fg_soh as int)),
        keyed("fg_fcc"@, int_text(info.fg_fcc as int)),
        keyed("fg_rm"@, int_text(info.fg_rm as int)),
        keyed("fg_rsoc"@, int_text(info.fg_rsoc as int)),
        keyed("fg_cycle"@, int_text(info.fg_cycle as int)),
        keyed("fg_ai"@, int_text(info.fg_ai as int)),
        keyed("fg_qmax"@, int_text(info.fg_qmax as int)),
        keyed("fg_vendor"@, info.fg_vendor),
        keyed("gauge_info"@, info.gauge_info),
        keyed("die_temp"@, int_text(info.die_temperature as int)),
        keyed("remaining_time"@, int_text(info.remaining_time as int)),
        keyed("max_life_temp"@, int_text(info.max_life_temp as int)),
        keyed("max_life_vol"@, int_text(info.max_life_vol as int)),
        keyed("over_vol_dur"@, int_text(info.over_vol_duration as int)),
    ]
}

/// The health report: `key=value`, separated by semicolons.
#[verifier::opaque]
pub open spec fn soh_report(info: ChargerInfoView, fractions: FractionalReadingsView) -> Seq<char> {
    joined(soh_fields(info, fractions), ";"@)
}

/// The cell voltages, their difference, the resistance scale, the average
/// current, the maximum charge, the gauge's activity and whether its vendor is
/// known.
pub open spec fn balance_report(info: ChargerInfoView) -> Seq<char> {
    joined(
        seq![
            int_text(info.cell1_vol as int),
            int_text(info.cell2_vol as int),
            int_text(as_clamped_i32(magnitude(info.cell1_vol - info.cell2_vol)) as int),
            int_text(info.cell1_rascale as int),
            int_text(info.fg_avg_current as int),
            int_text(info.fg_qmax as int),
            int_text(info.fg_ai as int),
            if info.fg_vendor.len() == 0 {
                "0"@
            } else {
                "1"@
            },
        ],
        ","@,
    )
}

/// The code of a USB type by its name; `None` for a name of no fixed code.
pub open spec fn exact_usb_code(usb_type: Seq<char>) -> Option<Seq<char>> {
    if usb_type == "USB"@ || usb_type == "SDP"@ {
        Some("1"@)
    } else if usb_type == "USB_CDP"@ || usb_type == "CDP"@ {
        Some("2"@)
    } else if usb_type == "USB_DCP"@ || usb_type == "DCP"@ {
        Some("3"@)
    } else if usb_type == "USB_HVDCP"@ || usb_type == "HVDCP"@ {
        Some("4"@)
    } else if usb_type == "USB_PD"@ || usb_type == "PD"@ || usb_type == "PD_ACTIVE"@ {
        Some("5"@)
    } else if usb_type == "USB_HVDCP_3"@ || usb_type == "HVDCP_3"@ {
        Some("6"@)
    } else {
        None
    }
}

/// The code of a USB type by what its name in lower case holds.
pub open spec fn loose_usb_code(lowered: Seq<char>) -> Seq<char> {
    if contains_text(lowered, "pd"@) {
        "5"@
    } else if contains_text(lowered, "hvdcp"@) {
        "4"@
    } else if contains_text(lowered, "dcp"@) {
        "3"@
    } else if contains_text(lowered, "cdp"@) {
        "2"@
    } else {
        "0"@
    }
}

/// The code of a USB type, with `lowered` its name in lower case.
pub open spec fn usb_code_by(usb_type: Seq<char>, lowered: Seq<char>) -> Seq<char> {
    match exact_usb_code(usb_type) {
        Some(code) => code,
        None => loose_usb_code(lowered),
    }
}

/// The USB report: zeros without a power source, and otherwise whether USB is
/// connected, the type code, the input current limit, and the battery's
/// voltage, current and temperature.
pub open spec fn usb_report(info: ChargerInfoView) -> Seq<char> {
    if !info.online() {
        "0,0,0,0,0,0"@
    } else {
        let usb_type = info.effective_usb_type();
        joined(
            seq![
                int_text(info.usb_online as int),
                usb_code_by(usb_type, unicode_lower(usb_type)),
                int_text(info.input_current_max as int),
                int_text(info.battery_voltage_now as int),
                int_text(info.battery_current_now as int),
                int_text(info.battery_temp as int),
            ],
            ","@,
        )
    }
}

/// The battery status that is shown: `Charging` while a wired charger is held
/// back, and no `Charging` without a power source.
pub open spec fn shown_status(
    info: ChargerInfoView,
    snapshot: FastChargeSnapshotView,
    held_back: bool,
) -> Seq<char> {
    if held_back && (snapshot.usb_online != 0 || snapshot.ac_online != 0) {
        "Charging"@
    } else if !snapshot.online && lower_text(info.battery_status) == lower_text("Charging"@) {
        "Discharging"@
    } else {
        info.battery_status
    }
}

pub open spec fn battery_fields(
    info: ChargerInfoView,
    snapshot: FastChargeSnapshotView,
    held_back: bool,
) -> Seq<Seq<char>> {
    seq![
        shown_status(info, snapshot, held_back),
        int_text(info.battery_capacity as int),
        int_text(info.battery_voltage_now as int),
        int_text(info.battery_current_now as int),
        int_text(info.battery_temp as int),
        info.battery_health,
        info.battery_technology,
        best_battery_type_of(info),
        info.battery_charge_type,
        int_text(best_fcc_mah_of(info) as int),
        int_text(capacity_mah(info.charge_full_design) as int),
        int_text(capacity_mah(info.charge_counter) as int),
        int_text(capacity_mah(best_rm_of(info)) as int),
        int_text(capacity_mah(info.fg_qmax) as int),
        info.fast_charge_type,
        int_text(info.input_current_max as int),
        int_text(info.authentic as int),
    ]
}

/// The battery report: values, separated by commas.
pub open spec fn battery_report(
    info: ChargerInfoView,
    snapshot: FastChargeSnapshotView,
    held_back: bool,
) -> Seq<char> {
    joined(battery_fields(info, snapshot, held_back), ","@)
}

impl Adapter {
    fn append_status_fields(
        report: &mut Joiner,
        info: &ChargerInfo,
        fractions: &FractionalReadings,
    )
        requires
            old(report).well_formed(),
        ensures
            final(report).well_formed(),
            final(report).items() == old(report).items() + status_fields(info@, fractions@),
            final(report).separator() == old(report).separator(),
    {
        let temp: String = tenths(info.battery_temp);
        let battery_type: String = Self::best_battery_type(info);
        report.keyed_number("usb_online", info.usb_online);
        report.keyed_item("usb_type", info.usb_type.as_str());
        report.keyed_item("usb_real_type", info.usb_real_type.as_str());
        report.keyed_number("ac_online", info.ac_online);
        report.keyed_number("pc_port", info.pc_port_online);
        report.keyed_item("batt_status", info.battery_status.as_str());
        report.keyed_item("batt_health", info.battery_health.as_str());
        report.keyed_number("capacity", info.battery_capacity);
        report.keyed_item("temp", temp.as_str());
        report.keyed_item("current", fractions.current_ma.as_str());
        report.keyed_item("voltage", fractions.voltage_v.as_str());
        report.keyed_item("charge_type", info.battery_charge_type.as_str());
        report.keyed_item("technology", info.battery_technology.as_str());
        report.keyed_item("battery_type", battery_type.as_str());
        assert(report.items() =~= old(report).items() + status_fields(info@, fractions@));
    }

    fn append_charge_fields(
        report: &mut Joiner,
        info: &ChargerInfo,
        fractions: &FractionalReadings,
    )
        requires
            old(report).well_formed(),
        ensures
            final(report).well_formed(),
            final(report).items() == old(report).items() + charge_fields(info@, fractions@),
            final(report).separator() == old(report).separator(),
    {
        let soh: i32 = Self::best_soh(info, fractions.soh_ratio_percent);
        let fcc_mah: i32 = Self::best_fcc_mah(info);
        let rm_mah: i32 = Self::best_rm_mah(info);
        let design_mah: i32 = Self::best_design_capacity_mah(info);
        let qmax_mah: i32 = Self::best_qmax_mah(info);
        report.keyed_number("soh", soh);
        report.keyed_item("fast_chg_type", info.fast_charge_type.as_str());
        report.keyed_item("charge_tech", info.charge_technology.as_str());
        report.keyed_number("wireless", info.wireless_online);
        report.keyed_item("wireless_type", info.wireless_type.as_str());
        report.keyed_number("input_current", info.input_current_max);
        report.keyed_number("charge_full", fcc_mah);
        report.keyed_number("fcc", fcc_mah);
        report.keyed_number("rm", rm_mah);
        report.keyed_number("design_capacity", design_mah);
        report.keyed_number("qmax", qmax_mah);
        report.keyed_number("adapter_power", info.adapter_power_w);
        report.keyed_number("cp_online", info.cp_online);
        report.keyed_number("cp_iin_m", info.cp_master_iin);
        report.keyed_number("cp_iin_s", info.cp_slave_iin);
        report.keyed_number("pd_verified", info.pd_verified);
        report.keyed_item("quick_charge_type", info.quick_charge_type.as_str());
        report.keyed_number("die_temp", info.die_temperature);
        report.keyed_item("typec_mode", info.typec_mode.as_str());
        report.keyed_number("cc_orientation", info.cc_orientation);
        assert(report.items() =~= old(report).items() + charge_fields(info@, fractions@));
    }

    fn append_device_fields(report: &mut Joiner, info: &ChargerInfo)
        requires
            old(report).well_formed(),
        ensures
            final(report).well_formed(),
            final(report).items() == old(report).items() + device_fields(info@),
            final(report).separator() == old(report).separator(),
    {
        report.keyed_number("remaining_time", info.remaining_time);
        report.keyed_number("smart_chg", info.smart_chg);
        report.keyed_number("night_chg", info.night_charging);
        report.keyed_number("sport", info.sport_mode);
        report.keyed_number("input_suspend", info.input_suspend);
        report.keyed_number("moisture", flag_value(info.moisture_detected));
        report.keyed_number("cell1_v", info.cell1_vol);
        report.keyed_number("cell2_v", info.cell2_vol);
        report.keyed_number("fg_qmax", info.fg_qmax);
        report.keyed_number("fg_ai", info.fg_ai);
        report.keyed_number("fg_avg_cur", info.fg_avg_current);
        report.keyed_item("fg_vendor", info.fg_vendor.as_str());
        report.keyed_number("authentic", info.authentic);
        report.keyed_number("max_life_t", info.max_life_temp);
        report.keyed_number("max_life_v", info.max_life_vol);
        report.keyed_number("board_temp", info.thermal_board_temp);
        report.keyed_number("flash", flag_value(info.flash_active));
        report.keyed_number("hifi", flag_value(info.hifi_connect));
        report.keyed_number("fake_soc", info.fake_soc);
        report.keyed_number("fake_soh", info.fake_soh);
        assert(report.items() =~= old(report).items() + device_fields(info@));
    }

    pub fn build_charger_info_json(info: &ChargerInfo, fractions: &FractionalReadings) -> (r:
        String)
        ensures
            r@ == charger_report(info@, fractions@),
    {
        reveal(charger_report);
        let mut report: Joiner = Joiner::new(";");
        Self::append_status_fields(&mut report, info, fractions);
        Self::append_charge_fields(&mut report, info, fractions);
        Self::append_device_fields(&mut report, info);
        assert(report.items() =~= status_fields(info@, fractions@) + charge_fields(
            info@,
            fractions@,
        ) + device_fields(info@));
        report.finish()
    }

    pub fn build_soh_debug_info(info: &ChargerInfo, fractions: &FractionalReadings) -> (r: String)
        ensures
            r@ == soh_report(info@, fractions@),
    {
        reveal(soh_report);
        let soh: i32 = Self::best_soh(info, fractions.soh_ratio_percent);
        let cycle: i32 = Self::best_cycle(info);
        let fcc_mah: i32 = Self::best_fcc_mah(info);
        let rm_mah: i32 = Self::best_rm_mah(info);
        let design_mah: i32 = Self::best_design_capacity_mah(info);
        let qmax_mah: i32 = Self::best_qmax_mah(info);
        let battery_type: String = Self::best_battery_type(info);
        let gauge_type: &str = if info.gauge_type.as_str().is_empty() {
            "unknown"
        } else {
            info.gauge_type.as_str()
        };
        let mut report: Joiner = Joiner::new(";");
        report.keyed_number("soh", soh);
        report.keyed_number("charge_full", fcc_mah);
        report.keyed_number("charge_full_design", design_mah);
        report.keyed_number("charge_counter", Self::best_charge_counter_mah(info));
        report.keyed_number("fcc", fcc_mah);
        report.keyed_number("rm", rm_mah);
        report.keyed_number("design_capacity", design_mah);
        report.keyed_number("qmax", qmax_mah);
        report.keyed_number("cycle", cycle);
        report.keyed_item("battery_type", battery_type.as_str());
        report.keyed_item("gauge_type", gauge_type);
        report.keyed_number("capacity", info.battery_capacity);
        report.keyed_number("temp", info.battery_temp);
        report.keyed_item("status", info.battery_status.as_str());
        report.keyed_number("fg_soh", info.fg_soh);
        report.keyed_number("fg_fcc", info.fg_fcc);
        report.keyed_number("fg_rm", info.fg_rm);
        report.keyed_number("fg_rsoc", info.fg_rsoc);
        report.keyed_number("fg_cycle", info.fg_cycle);
        report.keyed_number("fg_ai", info.fg_ai);
        report.keyed_number("fg_qmax", info.fg_qmax);
        report.keyed_item("fg_vendor", info.fg_vendor.as_str());
        report.keyed_item("gauge_info", info.gauge_info.as_str());
        report.keyed_number("die_temp", info.die_temperature);
        report.keyed_number("remaining_time", info.remaining_time);
        report.keyed_number("max_life_temp", info.max_life_temp);
        report.keyed_number("max_life_vol", info.max_life_vol);
        report.keyed_number("over_vol_dur", info.over_vol_duration);
        assert(report.items() =~= soh_fields(info@, fractions@));
        report.finish()
    }

    pub fn build_balance_info(info: &ChargerInfo) -> (r: String)
        ensures
            r@ == balance_report(info@),
    {
        let apart: i64 = info.cell1_vol as i64 - info.cell2_vol as i64;
        let diff: i32 = clamp_i64_to_i32(
            if apart < 0 {
                -apart
            } else {
                apart
            },
        );
        let vendor_known: &str = if info.fg_vendor.as_str().is_empty() {
            "0"
        } else {
            "1"
        };
        let mut report: Joiner = Joiner::new(",");
        report.number(info.cell1_vol);
        report.number(info.cell2_vol);
        report.number(diff);
        report.number(info.cell1_rascale);
        report.number(info.fg_avg_current);
        report.number(info.fg_qmax);
        report.number(info.fg_ai);
        report.item(vendor_known);
        assert(report.items() =~= seq![
            int_text(info.cell1_vol as int),
            int_text(info.cell2_vol as int),
            int_text(diff as int),
            int_text(info.cell1_rascale as int),
            int_text(info.fg_avg_current as int),
            int_text(info.fg_qmax as int),
            int_text(info.fg_ai as int),
            vendor_known@,
        ]);
        report.finish()
    }

    fn exact_usb_type_code(usb_type: &str) -> (r: Option<&'static str>)
        ensures
            (match r {
                Some(code) => Some(code@),
                None => None,
            }) == exact_usb_code(usb_type@),
    {
        if text_eq(usb_type, "USB") || text_eq(usb_type, "SDP") {
            Some("1")
        } else if text_eq(usb_type, "USB_CDP") || text_eq(usb_type, "CDP") {
            Some("2")
        } else if text_eq(usb_type, "USB_DCP") || text_eq(usb_type, "DCP") {
            Some("3")
        } else if text_eq(usb_type, "USB_HVDCP") || text_eq(usb_type, "HVDCP") {
            Some("4")
        } else if text_eq(usb_type, "USB_PD") || text_eq(usb_type, "PD") || text_eq(
            usb_type,
            "PD_ACTIVE",
        ) {
            Some("5")
        } else if text_eq(usb_type, "USB_HVDCP_3") || text_eq(usb_type, "HVDCP_3") {
            Some("6")
        } else {
            None
        }
    }

    /// The code of a USB type, with `lowered` its name in lower case.
    pub fn usb_type_code_by(usb_type: &str, lowered: &str) -> (r: &'static str)
        ensures
            r@ == usb_code_by(usb_type@, lowered@),
    {
        match Self::exact_usb_type_code(usb_type) {
            Some(code) => code,
            None => if contains(lowered, "pd") {
                "5"
            } else if contains(lowered, "hvdcp") {
                "4"
            } else if contains(lowered, "dcp") {
                "3"
            } else if contains(lowered, "cdp") {
                "2"
            } else {
                "0"
            },
        }
    }

    pub fn build_usb_status(info: &ChargerInfo) -> (r: String)
        ensures
            r@ == usb_report(info@),
    {
        if !info.online() {
            return "0,0,0,0,0,0".to_owned();
        }
        let usb_type: &str = info.effective_usb_type();
        let lowered: String = usb_type.to_lowercase();
        let type_code: &str = Self::usb_type_code_by(usb_type, lowered.as_str());
        let mut report: Joiner = Joiner::new(",");
        report.number(info.usb_online);
        report.item(type_code);
        report.number(info.input_current_max);
        report.number(info.battery_voltage_now);
        report.number(info.battery_current_now);
        report.number(info.battery_temp);
        assert(report.items() =~= seq![
            int_text(info.usb_online as int),
            type_code@,
            int_text(info.input_current_max as int),
            int_text(info.battery_voltage_now as int),
            int_text(info.battery_current_now as int),
            int_text(info.battery_temp as int),
        ]);
        report.finish()
    }

    pub fn build_battery_status(
        info: &ChargerInfo,
        snapshot: &FastChargeSnapshot,
        held_back: bool,
    ) -> (r: String)
        ensures
            r@ == battery_report(info@, snapshot@, held_back),
    {
        let fcc: i32 = Self::best_fcc_mah(info);
        let design_capacity: i32 = Self::best_design_capacity_mah(info);
        let charge_counter: i32 = Self::best_charge_counter_mah(info);
        let rm: i32 = Self::best_rm_mah(info);
        let qmax: i32 = Self::best_qmax_mah(info);
        let battery_type: String = Self::best_battery_type(info);
        let status: &str = if held_back && (snapshot.usb_online != 0 || snapshot.ac_online != 0) {
            "Charging"
        } else if !snapshot.online && eq_ignore_ascii_case(
            info.battery_status.as_str(),
            "Charging",
        ) {
            "Discharging"
        } else {
            info.battery_status.as_str()
        };
        let mut report: Joiner = Joiner::new(",");
        report.item(status);
        report.number(info.battery_capacity);
        report.number(info.battery_voltage_now);
        report.number(info.battery_current_now);
        report.number(info.battery_temp);
        report.item(info.battery_health.as_str());
        report.item(info.battery_technology.as_str());
        report.item(battery_type.as_str());
        report.item(info.battery_charge_type.as_str());
        report.number(fcc);
        report.number(design_capacity);
        report.number(charge_counter);
        report.number(rm);
        report.number(qmax);
        report.item(info.fast_charge_type.as_str());
        report.number(info.input_current_max);
        report.number(info.authentic);
        assert(report.items() =~= battery_fields(info@, snapshot@, held_back));
        report.finish()
    }
}

// ── laws ──

/// A wired charger that is held back is shown as charging.
pub proof fn held_back_charger_is_shown_as_charging(info: ChargerInfoView)
    requires
        info.usb_online != 0 || info.ac_online != 0,
    ensures
        shown_status(info, snapshot_of(info), true) == "Charging"@,
{
}

/// Without a power source the battery is never shown as charging, whatever its
/// node says and whatever is held back.
pub proof fn offline_is_not_shown_as_charging(info: ChargerInfoView, held_back: bool)
    requires
        !info.online(),
    ensures
        lower_text(shown_status(info, snapshot_of(info), held_back)) != lower_text("Charging"@),
{
    reveal_strlit("Charging");
    reveal_strlit("Discharging");
    assert(lower_text("Discharging"@).len() != lower_text("Charging"@).len());
}

} // verus!
