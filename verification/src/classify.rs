//! Classification of a charging state: fast-charge type, charge technology,
//! charge state, adapter power and remaining time.

use crate::adapter::Adapter;
use crate::battery::best_fcc_mah_of;
use crate::info::{ChargeState, ChargerInfo, ChargerInfoView};
use crate::snapshot::{data_port_type, int_or_zero, is_data_port_usb_type, trimmed_int_or_zero};
use crate::text::{
    as_i32, contains, contains_ascii_lower, contains_text, decimal, eq_ignore_ascii_case, int_text,
    lower_text, parse_i32, text_eq, trim, trimmed, unicode_lower,
};
use crate::units::{
    abs_i32_to_i64, as_clamped_i32, capacity_mah, clamp_i64_to_i32, magnitude,
    normalize_capacity_mah, watts, watts_from_reading,
};
use vstd::prelude::*;

verus! {

// ── fast-charge type ──

/// What the fast-charge type is classified from.
pub struct FastChargeInputs<'a> {
    pub quick_charge_type: &'a str,
    pub fastchg_mode: i32,
    pub sport_mode: i32,
    pub pd_verified: i32,
    pub cp_online: i32,
    pub usb_type: &'a str,
    pub adapter_power_w: i32,
    pub online: bool,
    pub usb_online: i32,
    pub pc_port_online: i32,
}

/// [`FastChargeInputs`] with its texts as character sequences.
#[verifier::ext_equal]
pub struct FastChargeInputsView {
    pub quick_charge_type: Seq<char>,
    pub fastchg_mode: i32,
    pub sport_mode: i32,
    pub pd_verified: i32,
    pub cp_online: i32,
    pub usb_type: Seq<char>,
    pub adapter_power_w: i32,
    pub online: bool,
    pub usb_online: i32,
    pub pc_port_online: i32,
}

impl<'a> View for FastChargeInputs<'a> {
    type V = FastChargeInputsView;

    open spec fn view(&self) -> FastChargeInputsView {
        FastChargeInputsView {
            quick_charge_type: self.quick_charge_type@,
            fastchg_mode: self.fastchg_mode,
            sport_mode: self.sport_mode,
            pd_verified: self.pd_verified,
            cp_online: self.cp_online,
            usb_type: self.usb_type@,
            adapter_power_w: self.adapter_power_w,
            online: self.online,
            usb_online: self.usb_online,
            pc_port_online: self.pc_port_online,
        }
    }
}

/// The level that a quick-charge type names, by its number or by a word.
pub open spec fn quick_charge_level(qct: Seq<char>) -> Option<i32> {
    match as_i32(trimmed(qct)) {
        Some(1) => Some(1),
        Some(2) => Some(2),
        Some(3) | Some(4) => Some(3),
        _ => if contains_text(qct, "Super"@) || contains_text(qct, "SUPER"@) || contains_text(
            qct,
            "Turbo"@,
        ) || contains_text(qct, "TURBO"@) {
            Some(3)
        } else if contains_text(qct, "Flash"@) || contains_text(qct, "FLASH"@) {
            Some(2)
        } else if contains_text(qct, "Fast"@) || contains_text(qct, "FAST"@) {
            Some(1)
        } else {
            None
        },
    }
}

fn named_quick_charge_level(qct: &str) -> (r: Option<i32>)
    ensures
        r == quick_charge_level(qct@),
{
    let number: i32 = match parse_i32(trim(qct)) {
        Some(v) => v,
        None => -1,
    };
    if number == 1 {
        return Some(1);
    }
    if number == 2 {
        return Some(2);
    }
    if number == 3 || number == 4 {
        return Some(3);
    }
    if contains(qct, "Super") || contains(qct, "SUPER") || contains(qct, "Turbo") || contains(
        qct,
        "TURBO",
    ) {
        Some(3)
    } else if contains(qct, "Flash") || contains(qct, "FLASH") {
        Some(2)
    } else if contains(qct, "Fast") || contains(qct, "FAST") {
        Some(1)
    } else {
        None
    }
}

/// The fast-charge type that a USB type in lower case stands for.
pub open spec fn usb_type_level(lowered: Seq<char>) -> Option<i32> {
    if contains_text(lowered, "pd"@) || contains_text(lowered, "pps"@) {
        Some(3)
    } else if contains_text(lowered, "qc"@) || contains_text(lowered, "hvdcp"@) || contains_text(
        lowered,
        "quick"@,
    ) {
        Some(2)
    } else if contains_text(lowered, "dcp"@) {
        Some(1)
    } else if contains_text(lowered, "sdp"@) || contains_text(lowered, "cdp"@) {
        Some(0)
    } else {
        None
    }
}

/// The fast-charge type of an online charger that nothing but its power tells.
pub open spec fn power_level(watts: i32) -> i32 {
    if watts > 20 {
        3
    } else if watts > 10 {
        2
    } else {
        1
    }
}

impl FastChargeInputsView {
    pub open spec fn on_data_port(self) -> bool {
        self.usb_online != 0 && (self.pc_port_online != 0 || data_port_type(self.usb_type))
    }

    /// A node shows fast charging.
    pub open spec fn shows_fast_charge(self) -> bool {
        self.fastchg_mode != 0 || self.sport_mode != 0 || self.pd_verified != 0 || self.cp_online
            != 0
    }

    /// The fast-charge type from 0 to 3, with `lowered` the USB type in lower
    /// case. The sources rank: the quick-charge type, the nodes that show fast
    /// charging, the USB type, the power.
    pub open spec fn fast_type_by(self, lowered: Seq<char>) -> i32 {
        let qct = self.quick_charge_type;
        if !self.online || self.on_data_port() {
            0
        } else if quick_charge_level(qct) is Some {
            quick_charge_level(qct)->0
        } else if contains_text(qct, "Normal"@) || contains_text(qct, "NORMAL"@) {
            0
        } else if self.shows_fast_charge() {
            3
        } else if usb_type_level(lowered) is Some {
            usb_type_level(lowered)->0
        } else {
            power_level(self.adapter_power_w)
        }
    }

    pub open spec fn fast_type(self) -> i32 {
        self.fast_type_by(unicode_lower(self.usb_type))
    }
}

/// The inputs that a charging state gives to the fast-charge classifier.
pub open spec fn fast_inputs_of(info: ChargerInfoView) -> FastChargeInputsView {
    FastChargeInputsView {
        quick_charge_type: info.quick_charge_type,
        fastchg_mode: info.fastchg_mode,
        sport_mode: info.sport_mode,
        pd_verified: info.pd_verified,
        cp_online: info.cp_online,
        usb_type: info.effective_usb_type(),
        adapter_power_w: info.adapter_power_w,
        online: info.online(),
        usb_online: info.usb_online,
        pc_port_online: info.pc_port_online,
    }
}

// ── charge technology ──

/// 0 normal, 1 QC, 2 HVDCP, 3 PD or PPS.
pub open spec fn charge_technology_of(qct: Seq<char>, fast_type: i32) -> i32 {
    match quick_charge_level(qct) {
        Some(level) => level,
        None => fast_type,
    }
}

/// The fast-charge type of a charging state, in decimal.
pub open spec fn fast_type_text(info: ChargerInfoView) -> Seq<char> {
    int_text(fast_inputs_of(info).fast_type() as int)
}

/// The charge technology of a charging state whose fast-charge type is known, in
/// decimal.
pub open spec fn technology_text(info: ChargerInfoView) -> Seq<char> {
    int_text(
        charge_technology_of(info.quick_charge_type, int_or_zero(info.fast_charge_type)) as int,
    )
}

// ── charge state ──

pub open spec fn charge_state_of(info: ChargerInfoView) -> ChargeState {
    if !info.online() {
        ChargeState::Disconnected
    } else if info.adapter_power_w > 30 {
        ChargeState::SuperCharging
    } else if info.adapter_power_w > 20 {
        ChargeState::FlashCharging
    } else if info.adapter_power_w > 10 {
        ChargeState::FastCharging
    } else if info.adapter_power_w > 3 {
        ChargeState::NormalCharging
    } else {
        ChargeState::SlowCharging
    }
}

// ── remaining time ──

/// The charge in mAh that is missing to a full battery.
pub open spec fn missing_mah(info: ChargerInfoView) -> int {
    if info.fg_fcc > 0 && info.fg_rm > 0 && info.fg_fcc > info.fg_rm {
        capacity_mah((info.fg_fcc - info.fg_rm) as i32) as int
    } else if info.battery_capacity >= 100 {
        0
    } else {
        as_clamped_i32(best_fcc_mah_of(info) as int * (100 - info.battery_capacity) / 100) as int
    }
}

/// A current in mA, without its sign, from a reading in mA or in µA.
pub open spec fn current_ma(reading: i32) -> int {
    let size = magnitude(reading as int);
    if size > 100_000 {
        size / 1000
    } else {
        size
    }
}

/// The seconds to a full battery: what the node says, in seconds or in
/// milliseconds, and otherwise the missing charge over the current. 0 where
/// the battery is full, nothing charges it, or nothing is known.
pub open spec fn remaining_seconds(info: ChargerInfoView) -> i32 {
    if info.remaining_time > 86_400 {
        (info.remaining_time as int / 1000) as i32
    } else if info.remaining_time > 0 {
        info.remaining_time
    } else if lower_text(info.battery_status) == lower_text("Full"@) || info.battery_capacity >= 100
        || !info.online() || missing_mah(info) <= 0 || current_ma(info.battery_current_now) <= 0 {
        0
    } else {
        as_clamped_i32(missing_mah(info) * 3600 / current_ma(info.battery_current_now))
    }
}

// ── power ──

pub open spec fn first_positive(a: i32, b: i32) -> i32 {
    if a > 0 {
        a
    } else {
        b
    }
}

/// The adapter power in watts. The sources rank: the direct power reading, the
/// constant-power reading, the charge pump's bus, its input currents, the
/// settled input, and the limits or the live values of the USB input.
pub open spec fn estimated_power(info: ChargerInfoView, direct: i32, constant: i32) -> i32 {
    let input_voltage = first_positive(info.usb_voltage_now, info.battery_voltage_now);
    let pump_current = as_clamped_i32(info.cp_master_iin + info.cp_slave_iin);
    let settled_voltage = first_positive(info.input_voltage_settled, input_voltage);
    if direct > 0 {
        watts_from_reading(direct)
    } else if constant > 0 {
        watts_from_reading(constant)
    } else if info.cp_bus_voltage > 0 && info.cp_bus_current > 0 {
        watts(info.cp_bus_voltage, info.cp_bus_current)
    } else if (info.cp_master_iin > 0 || info.cp_slave_iin > 0) && input_voltage > 0 && pump_current
        > 0 {
        watts(input_voltage, pump_current)
    } else if info.input_current_settled > 0 && settled_voltage > 0 {
        watts(settled_voltage, info.input_current_settled)
    } else {
        watts(
            input_voltage,
            first_positive(
                info.input_current_max,
                first_positive(
                    info.usb_current_now,
                    as_clamped_i32(magnitude(info.battery_current_now as int)),
                ),
            ),
        )
    }
}

/// The quick-charge type of the highest level, by its number or by name.
pub open spec fn quick_charge_type_4(value: Seq<char>) -> bool {
    trimmed(value) == "4"@ || contains_text(lower_text(value), "super"@)
}

fn saturating_sum(a: i32, b: i32) -> (r: i32)
    ensures
        r == as_clamped_i32(a + b),
{
    clamp_i64_to_i32(a as i64 + b as i64)
}

fn positive_or(a: i32, b: i32) -> (r: i32)
    ensures
        r == first_positive(a, b),
{
    if a > 0 {
        a
    } else {
        b
    }
}

impl Adapter {
    /// The fast-charge type from 0 to 3.
    pub fn classify_fast_charge_values(inputs: FastChargeInputs<'_>) -> (r: i32)
        ensures
            r == inputs@.fast_type(),
    {
        let lowered: String = inputs.usb_type.to_lowercase();
        Self::classify_fast_charge_by(inputs, lowered.as_str())
    }

    /// [`Self::classify_fast_charge_values`], with the USB type in lower case.
    pub fn classify_fast_charge_by(inputs: FastChargeInputs<'_>, lowered: &str) -> (r: i32)
        ensures
            r == inputs@.fast_type_by(lowered@),
            0 <= r <= 3,
    {
        if !inputs.online {
            return 0;
        }
        if inputs.usb_online != 0 && (inputs.pc_port_online != 0 || is_data_port_usb_type(
            inputs.usb_type,
        )) {
            return 0;
        }
        let qct: &str = inputs.quick_charge_type;
        if let Some(level) = named_quick_charge_level(qct) {
            return level;
        }
        if contains(qct, "Normal") || contains(qct, "NORMAL") {
            return 0;
        }
        if inputs.fastchg_mode != 0 || inputs.sport_mode != 0 || inputs.pd_verified != 0
            || inputs.cp_online != 0 {
            return 3;
        }
        if contains(lowered, "pd") || contains(lowered, "pps") {
            return 3;
        }
        if contains(lowered, "qc") || contains(lowered, "hvdcp") || contains(lowered, "quick") {
            return 2;
        }
        if contains(lowered, "dcp") {
            return 1;
        }
        if contains(lowered, "sdp") || contains(lowered, "cdp") {
            return 0;
        }
        if inputs.adapter_power_w > 20 {
            3
        } else if inputs.adapter_power_w > 10 {
            2
        } else {
            1
        }
    }

    pub fn classify_fast_charge(info: &ChargerInfo) -> (r: String)
        ensures
            r@ == int_text(fast_inputs_of(info@).fast_type() as int),
            r@ == fast_type_text(info@),
    {
        decimal(
            Self::classify_fast_charge_values(
                FastChargeInputs {
                    quick_charge_type: info.quick_charge_type.as_str(),
                    fastchg_mode: info.fastchg_mode,
                    sport_mode: info.sport_mode,
                    pd_verified: info.pd_verified,
                    cp_online: info.cp_online,
                    usb_type: info.effective_usb_type(),
                    adapter_power_w: info.adapter_power_w,
                    online: info.online(),
                    usb_online: info.usb_online,
                    pc_port_online: info.pc_port_online,
                },
            ),
        )
    }

    /// The charge technology: 0 normal, 1 QC, 2 HVDCP, 3 PD or PPS.
    pub fn classify_charge_technology_values(quick_charge_type: &str, fast_type: i32) -> (r: i32)
        ensures
            r == charge_technology_of(quick_charge_type@, fast_type),
    {
        match named_quick_charge_level(quick_charge_type) {
            Some(level) => level,
            None => fast_type,
        }
    }

    pub fn classify_charge_technology(info: &ChargerInfo) -> (r: String)
        ensures
            r@ == int_text(
                charge_technology_of(
                    info@.quick_charge_type,
                    int_or_zero(info@.fast_charge_type),
                ) as int,
            ),
            r@ == technology_text(info@),
    {
        decimal(
            Self::classify_charge_technology_values(
                info.quick_charge_type.as_str(),
                trimmed_int_or_zero(info.fast_charge_type.as_str()),
            ),
        )
    }

    pub fn classify_charge_state(info: &ChargerInfo) -> (r: ChargeState)
        ensures
            r == charge_state_of(info@),
    {
        if !info.online() {
            return ChargeState::Disconnected;
        }
        let pw: i32 = info.adapter_power_w;
        if pw > 30 {
            ChargeState::SuperCharging
        } else if pw > 20 {
            ChargeState::FlashCharging
        } else if pw > 10 {
            ChargeState::FastCharging
        } else if pw > 3 {
            ChargeState::NormalCharging
        } else {
            ChargeState::SlowCharging
        }
    }

    pub fn estimate_remaining_time_seconds(info: &ChargerInfo) -> (r: i32)
        ensures
            r == remaining_seconds(info@),
            r >= 0,
    {
        if info.remaining_time > 0 {
            return if info.remaining_time > 86_400 {
                info.remaining_time / 1000
            } else {
                info.remaining_time
            };
        }
        if eq_ignore_ascii_case(info.battery_status.as_str(), "Full") || info.battery_capacity
            >= 100 {
            return 0;
        }
        if !info.online() {
            return 0;
        }
        let remaining_mah: i32 = if info.fg_fcc > 0 && info.fg_rm > 0 && info.fg_fcc > info.fg_rm {
            normalize_capacity_mah(info.fg_fcc - info.fg_rm)
        } else {
            let fcc_mah: i64 = Self::best_fcc_mah(info) as i64;
            let missing_percent: i64 = 100 - info.battery_capacity as i64;
            assert(0 <= fcc_mah * missing_percent <= 0x7fff_ffff * 0x8000_0064) by (nonlinear_arith)
                requires
                    0 <= fcc_mah <= 0x7fff_ffff,
                    0 <= missing_percent <= 0x8000_0064,
            ;
            clamp_i64_to_i32(fcc_mah * missing_percent / 100)
        };
        if remaining_mah <= 0 {
            return 0;
        }
        let current_abs: i64 = abs_i32_to_i64(info.battery_current_now);
        let current_ma: i64 = if current_abs > 100_000 {
            current_abs / 1000
        } else {
            current_abs
        };
        if current_ma <= 0 {
            return 0;
        }
        clamp_i64_to_i32(remaining_mah as i64 * 3600 / current_ma)
    }

    /// The adapter power in watts, from the direct reading (0 where there is
    /// none), the constant-power reading (0 where there is none) and `info`.
    pub fn estimate_power(info: &ChargerInfo, direct_pw: i32, const_pw: i32) -> (r: i32)
        ensures
            r == estimated_power(info@, direct_pw, const_pw),
            r >= 0,
    {
        if direct_pw > 0 {
            return Self::normalize_power_value(direct_pw);
        }
        if const_pw > 0 {
            return Self::normalize_power_value(const_pw);
        }
        if info.cp_bus_voltage > 0 && info.cp_bus_current > 0 {
            return Self::power_watts(info.cp_bus_voltage, info.cp_bus_current);
        }
        let v: i32 = positive_or(info.usb_voltage_now, info.battery_voltage_now);
        if info.cp_master_iin > 0 || info.cp_slave_iin > 0 {
            let total_i: i32 = saturating_sum(info.cp_master_iin, info.cp_slave_iin);
            if v > 0 && total_i > 0 {
                return Self::power_watts(v, total_i);
            }
        }
        // The settled values are what the charger has negotiated right now, and
        // 0 when idle.
        if info.input_current_settled > 0 {
            let settled_v: i32 = positive_or(info.input_voltage_settled, v);
            if settled_v > 0 {
                return Self::power_watts(settled_v, info.input_current_settled);
            }
        }
        let c: i32 = positive_or(
            info.input_current_max,
            positive_or(
                info.usb_current_now,
                clamp_i64_to_i32(abs_i32_to_i64(info.battery_current_now)),
            ),
        );
        Self::power_watts(v, c)
    }

    pub fn is_quick_charge_type_4(value: &str) -> (r: bool)
        ensures
            r == quick_charge_type_4(value@),
    {
        text_eq(trim(value), "4") || contains_ascii_lower(value, "super")
    }
}

// ── laws ──

/// The fast-charge type lies between 0 and 3.
pub proof fn fast_type_in_range(inputs: FastChargeInputsView)
    ensures
        0 <= inputs.fast_type() <= 3,
{
}

/// A data port is never classified as fast charging, whatever else is read.
pub proof fn data_port_has_fast_type_zero(inputs: FastChargeInputsView)
    requires
        inputs.on_data_port(),
    ensures
        inputs.fast_type() == 0,
{
}

/// Without a power source the fast-charge type is 0, whatever else is read.
pub proof fn offline_has_fast_type_zero(inputs: FastChargeInputsView)
    requires
        !inputs.online,
    ensures
        inputs.fast_type() == 0,
{
}

/// On a charger a quick-charge type that names a level decides both the
/// fast-charge type and the charge technology.
pub proof fn named_level_decides(inputs: FastChargeInputsView, level: i32)
    requires
        inputs.online,
        !inputs.on_data_port(),
        quick_charge_level(inputs.quick_charge_type) == Some(level),
    ensures
        inputs.fast_type() == level,
        charge_technology_of(inputs.quick_charge_type, inputs.fast_type()) == level,
{
}

/// Neither the remaining time nor the estimated power is ever negative.
pub proof fn estimates_are_not_negative(info: ChargerInfoView, direct: i32, constant: i32)
    ensures
        remaining_seconds(info) >= 0,
        estimated_power(info, direct, constant) >= 0,
{
}

/// Nothing remains to be charged without a power source, or into a full
/// battery, unless the node says otherwise.
pub proof fn no_time_remains_when_idle(info: ChargerInfoView)
    requires
        info.remaining_time <= 0,
        !info.online() || info.battery_capacity >= 100,
    ensures
        remaining_seconds(info) == 0,
{
}

/// The settled input outranks the input limits: with it, the limit of the input
/// current has no say in the power.
pub proof fn settled_input_outranks_limits(
    info: ChargerInfoView,
    other_limit: i32,
    direct: i32,
    constant: i32,
)
    requires
        info.input_current_settled > 0,
        info.input_voltage_settled > 0,
    ensures
        estimated_power(
            ChargerInfoView { input_current_max: other_limit, ..info },
            direct,
            constant,
        ) == estimated_power(info, direct, constant),
{
}

} // verus!
