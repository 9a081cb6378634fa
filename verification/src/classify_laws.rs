//! What classification, power and time estimates are for: which source decides,
//! what has no say, and how results relate as the inputs change.

use crate::battery::best_fcc_mah_of;
use crate::classify::{
    charge_state_of, charge_technology_of, current_ma, estimated_power, fast_inputs_of, missing_mah,
    remaining_seconds, FastChargeInputsView,
};
use crate::info::{ChargeState, ChargerInfoView};
use crate::recheck::{recheck_start, recheck_typed, RecheckStep};
use crate::scan::direct_watts;
use crate::snapshot::{data_port_type, snapshot_of};
use crate::text::{as_i32, contains_text, lower_text, trimmed, unicode_lower, upper_text};
use crate::units::{watts, watts_from_reading};
use vstd::arithmetic::div_mod::{
    lemma_div_is_ordered, lemma_div_is_ordered_by_denominator, lemma_fundamental_div_mod,
};
use vstd::prelude::*;

verus! {

// ── fast-charge type ──

/// A power source is there that is not a USB port of a computer.
pub open spec fn plain_charger(inputs: FastChargeInputsView) -> bool {
    inputs.online && (inputs.usb_online == 0 || (inputs.pc_port_online == 0 && !data_port_type(
        inputs.usb_type,
    )))
}

/// One of the three pairs of words stands in `s`.
pub open spec fn has_word(s: Seq<char>, word: Seq<char>, shouted: Seq<char>) -> bool {
    contains_text(s, word) || contains_text(s, shouted)
}

/// `s` is the number of a quick-charge level, or holds the word for one.
pub open spec fn speaks_of_level(s: Seq<char>) -> bool {
    ||| as_i32(trimmed(s)) matches Some(n) && 1 <= n <= 4
    ||| has_word(s, "Super"@, "SUPER"@)
    ||| has_word(s, "Turbo"@, "TURBO"@)
    ||| has_word(s, "Flash"@, "FLASH"@)
    ||| has_word(s, "Fast"@, "FAST"@)
}

/// Without a power source the type is 0, and on a computer's port too, whether
/// the port says so or the USB type does.
pub proof fn no_fast_type_off_a_charger(inputs: FastChargeInputsView, lowered: Seq<char>)
    requires
        !plain_charger(inputs),
    ensures
        inputs.fast_type_by(lowered) == 0,
        inputs.fast_type() == 0,
{
}

/// The number of the quick-charge type decides before its words, and both before
/// everything else: 1 and 2 are those types, and 3 and 4 are the highest.
pub proof fn quick_charge_number_decides(
    inputs: FastChargeInputsView,
    lowered: Seq<char>,
    number: i32,
)
    requires
        plain_charger(inputs),
        as_i32(trimmed(inputs.quick_charge_type)) == Some(number),
        1 <= number <= 4,
    ensures
        inputs.fast_type_by(lowered) == (if number == 4 {
            3
        } else {
            number as int
        }),
        charge_technology_of(inputs.quick_charge_type, inputs.fast_type_by(lowered))
            == inputs.fast_type_by(lowered),
{
}

/// Where its number says nothing, the words of the quick-charge type decide: the
/// strongest one that it holds.
pub proof fn quick_charge_words_decide(inputs: FastChargeInputsView, lowered: Seq<char>)
    requires
        plain_charger(inputs),
        as_i32(trimmed(inputs.quick_charge_type)) matches Some(n) ==> !(1 <= n <= 4),
    ensures
        ({
            let qct = inputs.quick_charge_type;
            let fast_type = inputs.fast_type_by(lowered);
            let strongest = has_word(qct, "Super"@, "SUPER"@) || has_word(qct, "Turbo"@, "TURBO"@);
            let middle = has_word(qct, "Flash"@, "FLASH"@);
            let weakest = has_word(qct, "Fast"@, "FAST"@);
            let technology = charge_technology_of(qct, fast_type);
            &&& strongest ==> fast_type == 3 && technology == 3
            &&& middle && !strongest ==> fast_type == 2 && technology == 2
            &&& weakest && !strongest && !middle ==> fast_type == 1 && technology == 1
        }),
{
}

/// A quick-charge type that is called normal and names no level means no fast
/// charging, whatever the nodes, the USB type and the power say.
pub proof fn normal_type_is_no_fast_charge(inputs: FastChargeInputsView, lowered: Seq<char>)
    requires
        plain_charger(inputs),
        !speaks_of_level(inputs.quick_charge_type),
        has_word(inputs.quick_charge_type, "Normal"@, "NORMAL"@),
    ensures
        inputs.fast_type_by(lowered) == 0,
{
}

/// Where the quick-charge type leaves it open, any node that shows fast charging
/// makes it the highest type, whatever the USB type and the power are.
pub proof fn fast_charging_nodes_decide(inputs: FastChargeInputsView, lowered: Seq<char>)
    requires
        plain_charger(inputs),
        !speaks_of_level(inputs.quick_charge_type),
        !has_word(inputs.quick_charge_type, "Normal"@, "NORMAL"@),
        inputs.fastchg_mode != 0 || inputs.sport_mode != 0 || inputs.pd_verified != 0
            || inputs.cp_online != 0,
    ensures
        inputs.fast_type_by(lowered) == 3,
        inputs.fast_type() == 3,
{
}

/// Where neither the quick-charge type nor a node tells, the USB type does, by
/// the protocol that its name holds, and the power only where it holds none.
pub proof fn usb_type_decides_before_power(inputs: FastChargeInputsView, lowered: Seq<char>)
    requires
        plain_charger(inputs),
        !speaks_of_level(inputs.quick_charge_type),
        !has_word(inputs.quick_charge_type, "Normal"@, "NORMAL"@),
        inputs.fastchg_mode == 0 && inputs.sport_mode == 0 && inputs.pd_verified == 0
            && inputs.cp_online == 0,
    ensures
        ({
            let fast_type = inputs.fast_type_by(lowered);
            let negotiated = contains_text(lowered, "pd"@) || contains_text(lowered, "pps"@);
            let raised = contains_text(lowered, "qc"@) || contains_text(lowered, "hvdcp"@)
                || contains_text(lowered, "quick"@);
            let dedicated = contains_text(lowered, "dcp"@);
            let data = contains_text(lowered, "sdp"@) || contains_text(lowered, "cdp"@);
            let power = inputs.adapter_power_w;
            &&& negotiated ==> fast_type == 3
            &&& raised && !negotiated ==> fast_type == 2
            &&& dedicated && !negotiated && !raised ==> fast_type == 1
            &&& data && !negotiated && !raised && !dedicated ==> fast_type == 0
            &&& inputs.fast_type() == inputs.fast_type_by(unicode_lower(inputs.usb_type))
            &&& !negotiated && !raised && !dedicated && !data ==> {
                &&& power >= 21 ==> fast_type == 3
                &&& 11 <= power <= 20 ==> fast_type == 2
                &&& power <= 10 ==> fast_type == 1
            }
        }),
{
}

/// More power never means a lower type.
pub proof fn more_power_is_no_lower_type(
    inputs: FastChargeInputsView,
    lowered: Seq<char>,
    more_w: i32,
)
    requires
        more_w >= inputs.adapter_power_w,
    ensures
        (FastChargeInputsView { adapter_power_w: more_w, ..inputs }).fast_type_by(lowered)
            >= inputs.fast_type_by(lowered),
{
}

/// The charge technology is the level that the quick-charge type names, by its
/// number first and then by its strongest word, whatever the fast-charge type is.
pub proof fn technology_is_the_named_level(qct: Seq<char>, fast_type: i32, number: i32)
    ensures
        ({
            let technology = charge_technology_of(qct, fast_type);
            let numbered = as_i32(trimmed(qct)) == Some(number) && 1 <= number <= 4;
            let unnumbered = as_i32(trimmed(qct)) is None || (as_i32(trimmed(qct)) == Some(number)
                && !(1 <= number <= 4));
            let strongest = has_word(qct, "Super"@, "SUPER"@) || has_word(qct, "Turbo"@, "TURBO"@);
            let middle = has_word(qct, "Flash"@, "FLASH"@);
            let weakest = has_word(qct, "Fast"@, "FAST"@);
            &&& numbered && number <= 3 ==> technology == number
            &&& numbered && number == 4 ==> technology == 3
            &&& unnumbered && strongest ==> technology == 3
            &&& unnumbered && middle && !strongest ==> technology == 2
            &&& unnumbered && weakest && !middle && !strongest ==> technology == 1
        }),
{
}

/// The charge technology is the level that the quick-charge type speaks of, and
/// the fast-charge type where it speaks of none.
pub proof fn technology_follows_fast_type(qct: Seq<char>, fast_type: i32)
    requires
        !speaks_of_level(qct),
    ensures
        charge_technology_of(qct, fast_type) == fast_type,
{
}

/// The types of a computer's port are the standard and the charging downstream
/// port and the PC port, and no others: a wall charger is none. White space around
/// a type and the case of its letters do not matter.
pub proof fn data_port_types(s: Seq<char>, other: Seq<char>)
    ensures
        ({
            let name = upper_text(trimmed(s));
            let standard = name == "USB"@ || name == "SDP"@ || name == "USB_SDP"@;
            let charging = name == "CDP"@ || name == "USB_CDP"@;
            let computer = name == "PC"@ || name == "PC_PORT"@;
            data_port_type(s) <==> standard || charging || computer
        }),
        upper_text(trimmed(s)) == upper_text(trimmed(other)) ==> data_port_type(s)
            == data_port_type(other),
{
}

/// The classifier looks at the same source as the snapshot that clients see.
pub proof fn classifier_sees_the_snapshot(info: ChargerInfoView)
    ensures
        ({
            let inputs = fast_inputs_of(info);
            let snapshot = snapshot_of(info);
            &&& inputs.online == (info.usb_online != 0 || info.ac_online != 0
                || info.wireless_online != 0)
            &&& inputs.online == snapshot.online
            &&& inputs.usb_online == info.usb_online && snapshot.usb_online == info.usb_online
            &&& snapshot.ac_online == info.ac_online
            &&& snapshot.wireless_online == info.wireless_online
            &&& inputs.pc_port_online == info.pc_port_online && snapshot.pc_port_online
                == info.pc_port_online
            &&& inputs.quick_charge_type == info.quick_charge_type && snapshot.quick_charge_type
                == info.quick_charge_type
            &&& inputs.fastchg_mode == info.fastchg_mode && snapshot.fastchg_mode
                == info.fastchg_mode
            &&& inputs.sport_mode == info.sport_mode && snapshot.sport_mode == info.sport_mode
            &&& inputs.pd_verified == info.pd_verified && snapshot.pd_verified == info.pd_verified
            &&& inputs.cp_online == info.cp_online && snapshot.cp_online == info.cp_online
            &&& inputs.adapter_power_w == info.adapter_power_w && snapshot.adapter_power_w
                == info.adapter_power_w
            &&& inputs.usb_type == snapshot.usb_type
            &&& info.usb_real_type.len() > 0 ==> snapshot.usb_type == info.usb_real_type
            &&& info.usb_real_type.len() == 0 ==> snapshot.usb_type == info.usb_type
            &&& inputs.on_data_port() == snapshot.on_data_port()
        }),
{
}

// ── charge state ──

/// How fast a state charges.
pub open spec fn rank(state: ChargeState) -> int {
    match state {
        ChargeState::Unknown => 0,
        ChargeState::Disconnected => 1,
        ChargeState::SlowCharging => 2,
        ChargeState::NormalCharging => 3,
        ChargeState::FastCharging => 4,
        ChargeState::FlashCharging => 5,
        ChargeState::SuperCharging => 6,
    }
}

/// A battery on any power source charges, by its power from slow to super; with
/// more power it is shown as charging no slower. Without one it is disconnected.
pub proof fn charge_state_follows_power(info: ChargerInfoView, more_w: i32)
    requires
        more_w >= info.adapter_power_w,
    ensures
        ({
            let online = info.usb_online != 0 || info.ac_online != 0 || info.wireless_online != 0;
            let state = charge_state_of(info);
            let power = info.adapter_power_w;
            &&& state == ChargeState::Disconnected <==> !online
            &&& online ==> (state == ChargeState::SlowCharging <==> power <= 3)
            &&& online ==> (state == ChargeState::NormalCharging <==> 4 <= power <= 10)
            &&& online ==> (state == ChargeState::FastCharging <==> 11 <= power <= 20)
            &&& online ==> (state == ChargeState::FlashCharging <==> 21 <= power <= 30)
            &&& online ==> (state == ChargeState::SuperCharging <==> power >= 31)
            &&& rank(charge_state_of(ChargerInfoView { adapter_power_w: more_w, ..info })) >= rank(
                state,
            )
        }),
{
}

// ── power ──

/// A direct reading decides alone, and then a constant-power reading.
pub proof fn power_readings_decide(
    info: ChargerInfoView,
    other: ChargerInfoView,
    direct: i32,
    constant: i32,
    other_constant: i32,
)
    ensures
        direct > 0 ==> estimated_power(info, direct, constant) == watts_from_reading(direct)
            && estimated_power(info, direct, constant) == estimated_power(
            other,
            direct,
            other_constant,
        ),
        direct <= 0 && constant > 0 ==> estimated_power(info, direct, constant)
            == watts_from_reading(constant) && estimated_power(info, direct, constant)
            == estimated_power(other, direct, constant),
{
}

/// A reading that is 0 or less counts as none.
pub proof fn no_reading_has_no_say(info: ChargerInfoView, direct: i32, constant: i32)
    requires
        direct <= 0,
    ensures
        estimated_power(info, direct, constant) == estimated_power(info, 0, constant),
        constant <= 0 ==> estimated_power(info, direct, constant) == estimated_power(info, 0, 0),
{
}

/// Without such a reading the charge pump's bus decides: the power is that of its
/// voltage and its current, whatever the other inputs are.
pub proof fn pump_bus_decides(info: ChargerInfoView, other: ChargerInfoView)
    requires
        info.cp_bus_voltage > 0,
        info.cp_bus_current > 0,
        other.cp_bus_voltage == info.cp_bus_voltage,
        other.cp_bus_current == info.cp_bus_current,
    ensures
        estimated_power(info, 0, 0) == watts(info.cp_bus_voltage, info.cp_bus_current),
        estimated_power(other, 0, 0) == estimated_power(info, 0, 0),
{
}

/// Neither a power reading nor the pump's bus is there.
pub open spec fn no_bus(info: ChargerInfoView) -> bool {
    info.cp_bus_voltage <= 0 || info.cp_bus_current <= 0
}

/// Where the pump's input currents are the source, both count alike: exchanging
/// them changes nothing, and the power is that of the input voltage and their
/// sum. With one pump only it is that of the one current.
pub proof fn both_pump_currents_count(info: ChargerInfoView, voltage: i32)
    requires
        no_bus(info),
        info.cp_master_iin > 0 || info.cp_slave_iin > 0,
        info.cp_master_iin + info.cp_slave_iin > 0,
        voltage > 0,
        info.usb_voltage_now == voltage || (info.usb_voltage_now <= 0 && info.battery_voltage_now
            == voltage),
    ensures
        ({
            let exchanged = ChargerInfoView {
                cp_master_iin: info.cp_slave_iin,
                cp_slave_iin: info.cp_master_iin,
                ..info
            };
            let power = estimated_power(info, 0, 0);
            let sum = info.cp_master_iin + info.cp_slave_iin;
            &&& estimated_power(exchanged, 0, 0) == power
            &&& sum <= i32::MAX ==> power == watts(voltage, sum as i32)
            &&& sum > i32::MAX ==> power == watts(voltage, i32::MAX)
            &&& info.cp_slave_iin == 0 ==> power == watts(voltage, info.cp_master_iin)
            &&& info.cp_master_iin == 0 ==> power == watts(voltage, info.cp_slave_iin)
        }),
{
}

/// No charge pump gives a power: neither shows a current, they do not add up to one,
/// or no input voltage is known.
pub open spec fn no_pump(info: ChargerInfoView) -> bool {
    no_bus(info) && {
        ||| info.cp_master_iin <= 0 && info.cp_slave_iin <= 0
        ||| info.cp_master_iin + info.cp_slave_iin <= 0
        ||| info.usb_voltage_now <= 0 && info.battery_voltage_now <= 0
    }
}

/// Without a charge pump the settled input decides: its current, with its own
/// voltage where it has one, and otherwise with that of the USB port or, failing
/// that, of the battery.
pub proof fn settled_input_decides(info: ChargerInfoView)
    requires
        no_pump(info),
        info.input_current_settled > 0,
    ensures
        info.input_voltage_settled > 0 ==> estimated_power(info, 0, 0) == watts(
            info.input_voltage_settled,
            info.input_current_settled,
        ),
        info.input_voltage_settled <= 0 && info.usb_voltage_now > 0 ==> estimated_power(info, 0, 0)
            == watts(info.usb_voltage_now, info.input_current_settled),
        info.input_voltage_settled <= 0 && info.usb_voltage_now <= 0 && info.battery_voltage_now > 0
            ==> estimated_power(info, 0, 0) == watts(
            info.battery_voltage_now,
            info.input_current_settled,
        ),
{
}

/// With nothing settled either, the power is that of the voltage of the USB port,
/// or failing that of the battery, and of the first current that is known: the
/// limit of the input, the USB current, or the battery current, whose sign does
/// not matter.
pub proof fn input_limits_decide_last(info: ChargerInfoView, voltage: i32)
    requires
        no_pump(info),
        info.input_current_settled <= 0,
        voltage > 0,
        info.usb_voltage_now == voltage || (info.usb_voltage_now <= 0 && info.battery_voltage_now
            == voltage),
    ensures
        info.input_current_max > 0 ==> estimated_power(info, 0, 0) == watts(
            voltage,
            info.input_current_max,
        ),
        info.input_current_max <= 0 && info.usb_current_now > 0 ==> estimated_power(info, 0, 0)
            == watts(voltage, info.usb_current_now),
        info.input_current_max <= 0 && info.usb_current_now <= 0 && info.battery_current_now >= 0
            ==> estimated_power(info, 0, 0) == watts(voltage, info.battery_current_now),
        info.input_current_max <= 0 && info.usb_current_now <= 0 && i32::MIN
            < info.battery_current_now < 0 ==> estimated_power(info, 0, 0) == watts(
            voltage,
            (-info.battery_current_now) as i32,
        ),
        info.input_current_max <= 0 && info.usb_current_now <= 0 && info.battery_current_now
            == i32::MIN ==> estimated_power(info, 0, 0) == watts(voltage, i32::MAX),
{
}

/// Without any voltage there is no power, unless it is read.
pub proof fn no_voltage_no_power(info: ChargerInfoView)
    requires
        no_bus(info),
        info.usb_voltage_now <= 0,
        info.battery_voltage_now <= 0,
        info.input_voltage_settled <= 0,
    ensures
        estimated_power(info, 0, 0) == 0,
{
}

/// A power of 30 to 35 W, and no other, is looked at again, and only of a charger
/// of type 4 or one called super. It is then read three times more, and the
/// result is the highest of the four; otherwise the power stays, unread.
pub proof fn only_a_low_super_power_is_read_again(
    power_w: i32,
    qct: Seq<char>,
    later: Seq<char>,
    first: i32,
    second: i32,
    third: i32,
)
    ensures
        ({
            let typed = recheck_typed(power_w, qct, later);
            let ended = typed.with_power(first).with_power(second).with_power(third);
            let known = if trimmed(qct).len() > 0 {
                qct
            } else {
                later
            };
            let fit = trimmed(known) == "4"@ || contains_text(lower_text(known), "super"@);
            &&& recheck_start(power_w, qct).step is ReadType <==> 30 <= power_w <= 35 && trimmed(
                qct,
            ).len() == 0
            &&& 30 <= power_w <= 35 && fit ==> {
                &&& typed.step == RecheckStep::ReadPower(3)
                &&& ended.step is Done
                &&& ended.best_power_w >= power_w && ended.best_power_w >= first
                &&& ended.best_power_w >= second && ended.best_power_w >= third
                &&& ended.best_power_w == power_w || ended.best_power_w == first
                    || ended.best_power_w == second || ended.best_power_w == third
            }
            &&& !(30 <= power_w <= 35 && fit) ==> typed.step is Done && ended == typed
                && ended.best_power_w == power_w
        }),
{
}

/// The direct power counts as read, in watts, and as 0 where it is none.
pub proof fn direct_power_in_watts(power: i32)
    ensures
        power > 0 ==> direct_watts(Some(power)) == watts_from_reading(power),
        0 < power <= 500 ==> direct_watts(Some(power)) == power,
        power <= 0 ==> direct_watts(Some(power)) == 0,
        direct_watts(None) == 0,
{
}

// ── remaining time ──

/// The battery is being charged and is not full, and its node tells no time.
pub open spec fn filling(info: ChargerInfoView) -> bool {
    &&& info.remaining_time <= 0
    &&& lower_text(info.battery_status) != lower_text("Full"@)
    &&& info.battery_capacity < 100
    &&& info.usb_online != 0 || info.ac_online != 0 || info.wireless_online != 0
}

/// `seconds` is how long a current of `ma` takes to bring `mah`, rounded down.
pub open spec fn brings(seconds: int, ma: int, mah: int) -> bool {
    seconds * ma <= mah * 3600 < (seconds + 1) * ma
}

proof fn lemma_brings(mah: int, ma: int)
    requires
        mah >= 0,
        ma > 0,
    ensures
        brings(mah * 3600 / ma, ma, mah),
        0 <= mah * 3600 / ma <= mah * 3600,
{
    let q = mah * 3600 / ma;
    lemma_fundamental_div_mod(mah * 3600, ma);
    assert(q * ma == ma * q) by (nonlinear_arith);
    assert((q + 1) * ma == ma * q + ma) by (nonlinear_arith);
    assert(0 <= q <= mah * 3600) by (nonlinear_arith)
        requires
            ma * q <= mah * 3600 < ma * q + ma,
            ma >= 1,
            mah >= 0,
    ;
}

/// What the node says stands: in seconds up to a day, and in milliseconds beyond.
pub proof fn node_time_stands(info: ChargerInfoView)
    requires
        info.remaining_time > 0,
    ensures
        info.remaining_time <= 86_400 ==> remaining_seconds(info) == info.remaining_time,
        info.remaining_time > 86_400 ==> remaining_seconds(info) * 1_000 <= info.remaining_time
            < (remaining_seconds(info) + 1) * 1_000,
{
}

/// `ma` is the size of a current in mA that is read in mA, or in µA from over 100 000
/// on.
pub open spec fn flows(reading: i32, ma: int) -> bool {
    &&& ma > 0
    &&& -100_000 <= reading <= 100_000 ==> ma == reading || ma == -reading
    &&& reading > 100_000 ==> ma * 1_000 <= reading < (ma + 1) * 1_000
    &&& reading < -100_000 ==> ma * 1_000 <= -reading < (ma + 1) * 1_000
}

/// With the gauge's full and remaining charge in mAh, the time is what the
/// current takes to bring the charge that is missing.
pub proof fn time_brings_the_missing_charge(info: ChargerInfoView, ma: int)
    requires
        filling(info),
        0 < info.fg_rm < info.fg_fcc,
        info.fg_fcc - info.fg_rm <= 100_000,
        flows(info.battery_current_now, ma),
    ensures
        brings(remaining_seconds(info) as int, ma, info.fg_fcc - info.fg_rm),
{
    lemma_brings(info.fg_fcc - info.fg_rm, ma);
    assert(current_ma(info.battery_current_now) == ma);
}

/// Readings in µA give the same time as in mA.
pub proof fn time_does_not_depend_on_the_unit(info: ChargerInfoView, ma: i32)
    requires
        100 < ma <= 100_000,
        info.battery_current_now == ma,
    ensures
        remaining_seconds(
            ChargerInfoView { battery_current_now: (ma * 1_000) as i32, ..info },
        ) == remaining_seconds(info),
        remaining_seconds(
            ChargerInfoView { battery_current_now: (-ma * 1_000) as i32, ..info },
        ) == remaining_seconds(info),
{
}

/// A gauge in µAh gives the same time as one in mAh, where more than 100 mAh are
/// missing; and so does a full charge in µAh that the percent is taken of.
pub proof fn time_does_not_depend_on_the_gauge_unit(info: ChargerInfoView)
    ensures
        ({
            let fine = ChargerInfoView {
                fg_fcc: (info.fg_fcc * 1_000) as i32,
                fg_rm: (info.fg_rm * 1_000) as i32,
                ..info
            };
            0 < info.fg_rm && info.fg_rm + 100 < info.fg_fcc <= 100_000 ==> remaining_seconds(fine)
                == remaining_seconds(info)
        }),
        ({
            let fine = ChargerInfoView { fg_fcc: (info.fg_fcc * 1_000) as i32, ..info };
            info.fg_rm <= 0 && 100 < info.fg_fcc <= 100_000 ==> remaining_seconds(fine)
                == remaining_seconds(info)
        }),
        ({
            let fine = ChargerInfoView { charge_full: (info.charge_full * 1_000) as i32, ..info };
            info.fg_rm <= 0 && info.fg_fcc <= 0 && 100 < info.charge_full <= 100_000
                ==> remaining_seconds(fine) == remaining_seconds(info)
        }),
{
    let fine = ChargerInfoView {
        fg_fcc: (info.fg_fcc * 1_000) as i32,
        fg_rm: (info.fg_rm * 1_000) as i32,
        ..info
    };
    if 0 < info.fg_rm && info.fg_rm + 100 < info.fg_fcc <= 100_000 {
        assert(missing_mah(fine) == missing_mah(info));
    }
}

/// A gauge that shows no more room than charge has no say: the time is that of the
/// percent, and one that is too long for 32 bits is cut there.
pub proof fn full_gauge_has_no_say(info: ChargerInfoView, other: i32)
    requires
        filling(info),
        0 < info.fg_fcc <= info.fg_rm,
        other <= 0 || other >= info.fg_fcc,
    ensures
        remaining_seconds(ChargerInfoView { fg_rm: other, ..info }) == remaining_seconds(info),
{
}

/// More than 100 000 is missing in µAh, and the time is what the current takes to
/// bring that; a time too long for 32 bits is cut there.
pub proof fn long_times_are_cut(info: ChargerInfoView, ma: int, mah: int)
    requires
        filling(info),
        0 < info.fg_rm < info.fg_fcc,
        info.fg_fcc - info.fg_rm > 100_000,
        mah * 1_000 <= info.fg_fcc - info.fg_rm < (mah + 1) * 1_000,
        flows(info.battery_current_now, ma),
    ensures
        ({
            let seconds = remaining_seconds(info) as int;
            &&& seconds < i32::MAX ==> brings(seconds, ma, mah)
            &&& seconds == i32::MAX ==> seconds * ma <= mah * 3600
        }),
{
    lemma_brings(mah, ma);
    let q = mah * 3600 / ma;
    assert(current_ma(info.battery_current_now) == ma);
    assert(missing_mah(info) == mah);
    assert(q > i32::MAX ==> i32::MAX as int * ma <= q * ma) by (nonlinear_arith)
        requires
            ma > 0,
    ;
}

/// Of two states that differ in the gauge's remaining charge only, the one with
/// more charge takes no longer.
pub proof fn more_charge_takes_no_longer(info: ChargerInfoView, more: i32)
    requires
        filling(info),
        0 < info.fg_rm <= more < info.fg_fcc,
        info.fg_fcc <= 100_000,
    ensures
        remaining_seconds(ChargerInfoView { fg_rm: more, ..info }) <= remaining_seconds(info),
{
    let fuller = ChargerInfoView { fg_rm: more, ..info };
    let ma = current_ma(info.battery_current_now);
    if ma > 0 {
        lemma_brings(info.fg_fcc - info.fg_rm, ma);
        lemma_brings(info.fg_fcc - more, ma);
        lemma_div_is_ordered((info.fg_fcc - more) * 3600, (info.fg_fcc - info.fg_rm) * 3600, ma);
    }
}

/// A stronger current takes no longer.
pub proof fn stronger_current_takes_no_longer(info: ChargerInfoView, stronger: i32)
    requires
        filling(info),
        0 < info.fg_rm < info.fg_fcc <= 100_000,
        0 < info.battery_current_now <= stronger <= 100_000,
    ensures
        remaining_seconds(ChargerInfoView { battery_current_now: stronger, ..info })
            <= remaining_seconds(info),
{
    let missing = info.fg_fcc - info.fg_rm;
    lemma_brings(missing, info.battery_current_now as int);
    lemma_brings(missing, stronger as int);
    lemma_div_is_ordered_by_denominator(
        missing * 3600,
        info.battery_current_now as int,
        stronger as int,
    );
}

/// Where the gauge does not tell what is missing, it is the share of the full charge
/// that the percent leaves: the time is what the current takes to bring it, cut at
/// the bound of 32 bits, and a fuller battery takes no longer.
pub proof fn time_brings_the_missing_percent(
    info: ChargerInfoView,
    ma: int,
    mah: int,
    fuller: i32,
)
    requires
        filling(info),
        info.fg_rm <= 0 || info.fg_fcc <= info.fg_rm,
        best_fcc_mah_of(info) > 0,
        0 <= info.battery_capacity <= fuller < 100,
        flows(info.battery_current_now, ma),
        mah * 100 <= best_fcc_mah_of(info) * (100 - info.battery_capacity) < (mah + 1) * 100,
    ensures
        ({
            let seconds = remaining_seconds(info) as int;
            &&& seconds < i32::MAX ==> brings(seconds, ma, mah)
            &&& seconds == i32::MAX ==> seconds * ma <= mah * 3600
        }),
        remaining_seconds(ChargerInfoView { battery_capacity: fuller, ..info })
            <= remaining_seconds(info),
{
    let full = best_fcc_mah_of(info) as int;
    let part = full * (100 - info.battery_capacity);
    let smaller = full * (100 - fuller);
    assert(0 <= smaller <= part <= full * 100) by (nonlinear_arith)
        requires
            full > 0,
            0 <= info.battery_capacity <= fuller < 100,
            part == full * (100 - info.battery_capacity),
            smaller == full * (100 - fuller),
    ;
    assert(mah == part / 100);
    assert(current_ma(info.battery_current_now) == ma);
    lemma_brings(mah, ma);
    lemma_brings(smaller / 100, ma);
    lemma_div_is_ordered((smaller / 100) * 3600, mah * 3600, ma);
    assert(missing_mah(info) == mah);
    let other = ChargerInfoView { battery_capacity: fuller, ..info };
    assert(missing_mah(other) == smaller / 100);
    let q = mah * 3600 / ma;
    assert(q > i32::MAX ==> i32::MAX as int * ma <= q * ma) by (nonlinear_arith)
        requires
            ma > 0,
    ;
}

/// No time remains into a battery that is full by its status, in any case of
/// letters, or by its percent; nor without a power source or a current.
pub proof fn no_time_remains_without_charging(info: ChargerInfoView)
    requires
        info.remaining_time <= 0,
        lower_text(info.battery_status) == lower_text("Full"@) || info.battery_capacity >= 100 || (
        info.usb_online == 0 && info.ac_online == 0 && info.wireless_online == 0)
            || info.battery_current_now == 0,
    ensures
        remaining_seconds(info) == 0,
{
}

} // verus!
