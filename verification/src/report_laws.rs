//! What clients find in the reports: which value stands under which key, and in
//! which place of a list.

use crate::adapter::AdapterView;
use crate::battery::{
    best_battery_type_of, best_cycle_of, best_fcc_mah_of, best_rm_of, best_soh_of,
};
use crate::decimal_soc::decimal_report;
use crate::info::ChargerInfoView;
use crate::report::{
    balance_report, battery_fields, battery_report, charge_fields, charger_report, device_fields,
    flag, gauge_type_or_unknown, shown_status, soh_fields, soh_report, status_fields, tenths_text,
    usb_code_by, usb_report, FractionalReadingsView,
};
use crate::snapshot::{snapshot_of, FastChargeSnapshotView};
use crate::text::{
    contains_text, int_text, joined, keyed, lemma_int_text_chars, lower_text, text_pieces,
    unicode_lower, Separator,
};
use crate::text_laws::{lemma_contains_middle, one_piece, pieces_of_a_pair};
use crate::units::capacity_mah;
use vstd::prelude::*;

verus! {

// ── lists ──

/// A list with separators between its items splits back into its items, where none
/// of them holds the separator.
pub proof fn joined_list_splits_back(items: Seq<Seq<char>>, separator: char)
    requires
        items.len() > 0,
        forall|i: int| 0 <= i < items.len() ==> !(#[trigger] items[i]).contains(separator),
    ensures
        text_pieces(joined(items, seq![separator]), Separator::Char(separator)) == items,
    decreases items.len(),
{
    let cut = |c: char| Separator::Char(separator).splits_at(c);
    let last = items.last();
    assert(!items[items.len() - 1].contains(separator));
    assert forall|i: int| 0 <= i < last.len() implies !cut(#[trigger] last[i]) by {
        assert(last.contains(last[i]));
    }
    one_piece(last, cut);
    if items.len() == 1 {
        assert(items =~= seq![last]);
    } else {
        let earlier = items.drop_last();
        assert forall|i: int| 0 <= i < earlier.len() implies !(#[trigger] earlier[i]).contains(
            separator,
        ) by {
            assert(!items[i].contains(separator));
        }
        joined_list_splits_back(earlier, separator);
        let text = joined(earlier, seq![separator]);
        assert(joined(items, seq![separator]) =~= text.push(separator) + last);
        pieces_of_a_pair(text, separator, last, cut);
        assert(earlier + seq![last] =~= items);
    }
}

/// A key and its value are written with an equals sign between them.
pub proof fn keyed_values_are_written(key: Seq<char>, value: Seq<char>)
    ensures
        keyed(key, value) == key.push('=') + value,
{
    reveal_strlit("=");
    assert(keyed(key, value) =~= key.push('=') + value);
}

/// The fields stand in the report one right after the other, with semicolons
/// between them.
pub open spec fn stand_in(report: Seq<char>, fields: Seq<Seq<char>>) -> bool {
    contains_text(";"@ + report + ";"@, ";"@ + joined(fields, ";"@) + ";"@)
}

proof fn lemma_joined_pair(first: Seq<Seq<char>>, second: Seq<Seq<char>>, sep: Seq<char>)
    requires
        first.len() > 0,
        second.len() > 0,
    ensures
        joined(first + second, sep) == joined(first, sep) + sep + joined(second, sep),
    decreases second.len(),
{
    let all = first + second;
    assert(all.drop_last() =~= first + second.drop_last());
    if second.len() == 1 {
        assert(all.drop_last() =~= first);
    } else {
        lemma_joined_pair(first, second.drop_last(), sep);
        assert(joined(all, sep) =~= joined(first, sep) + sep + joined(second, sep));
    }
}

proof fn lemma_regrouped(a: Seq<char>, b: Seq<char>, c: Seq<char>)
    ensures
        a + (b + c) == a + b + c,
{
    assert(a + (b + c) =~= a + b + c);
}

/// The middle one of three texts with separators between and around them.
proof fn lemma_middle_part(a: Seq<char>, b: Seq<char>, c: Seq<char>, sep: Seq<char>)
    ensures
        contains_text(a + (sep + b + sep) + c, sep + b + sep),
        a + (sep + b + sep) + c == a + sep + b + sep + c,
{
    lemma_contains_middle(a, sep + b + sep, c);
    lemma_regrouped(a, sep + b, sep);
    lemma_regrouped(a, sep, b);
}

/// Each of three texts with semicolons between them stands between semicolons.
proof fn lemma_three_parts(first: Seq<char>, second: Seq<char>, third: Seq<char>)
    ensures
        ({
            let whole = ";"@ + (first + ";"@ + second + ";"@ + third) + ";"@;
            &&& contains_text(whole, ";"@ + first + ";"@)
            &&& contains_text(whole, ";"@ + second + ";"@)
            &&& contains_text(whole, ";"@ + third + ";"@)
        }),
{
    let sep = ";"@;
    let none = Seq::<char>::empty();
    let rest = second + sep + third + sep;
    lemma_regrouped(sep, first + sep + second + sep, third);
    lemma_regrouped(sep, first + sep + second, sep);
    lemma_regrouped(sep, first + sep, second);
    lemma_regrouped(sep, first, sep);
    lemma_middle_part(none, first, rest, sep);
    assert(none + sep =~= sep);
    lemma_regrouped(sep + first + sep, second + sep + third, sep);
    lemma_regrouped(sep + first + sep, second + sep, third);
    lemma_regrouped(sep + first + sep, second, sep);
    lemma_middle_part(sep + first, second, third + sep, sep);
    lemma_regrouped(sep + first + sep + second + sep, third, sep);
    lemma_middle_part(sep + first + sep + second, third, none, sep);
    assert(sep + first + sep + second + sep + third + sep + none =~= sep + first + sep + second
        + sep + third + sep);
}

proof fn lemma_charger_report(info: ChargerInfoView, fractions: FractionalReadingsView)
    ensures
        stand_in(charger_report(info, fractions), status_fields(info, fractions)),
        stand_in(charger_report(info, fractions), charge_fields(info, fractions)),
        stand_in(charger_report(info, fractions), device_fields(info)),
{
    reveal(charger_report);
    let first = status_fields(info, fractions);
    let second = charge_fields(info, fractions);
    let third = device_fields(info);
    lemma_joined_pair(first, second, ";"@);
    lemma_joined_pair(first + second, third, ";"@);
    lemma_three_parts(joined(first, ";"@), joined(second, ";"@), joined(third, ";"@));
}

/// The charger report begins with the power source and the battery.
pub proof fn charger_report_gives_the_status(
    info: ChargerInfoView,
    fractions: FractionalReadingsView,
)
    ensures
        stand_in(
            charger_report(info, fractions),
            seq![
                keyed("usb_online"@, int_text(info.usb_online as int)),
                keyed("usb_type"@, info.usb_type),
                keyed("usb_real_type"@, info.usb_real_type),
                keyed("ac_online"@, int_text(info.ac_online as int)),
                keyed("pc_port"@, int_text(info.pc_port_online as int)),
                keyed("batt_status"@, info.battery_status),
                keyed("batt_health"@, info.battery_health),
                keyed("capacity"@, int_text(info.battery_capacity as int)),
                keyed("temp"@, tenths_text(info.battery_temp as int)),
                keyed("current"@, fractions.current_ma),
                keyed("voltage"@, fractions.voltage_v),
                keyed("charge_type"@, info.battery_charge_type),
                keyed("technology"@, info.battery_technology),
                keyed("battery_type"@, best_battery_type_of(info)),
            ],
        ),
{
    lemma_charger_report(info, fractions);
}

/// The charger report goes on with the health, the charging and the capacities.
pub proof fn charger_report_gives_the_charging(
    info: ChargerInfoView,
    fractions: FractionalReadingsView,
)
    ensures
        stand_in(
            charger_report(info, fractions),
            seq![
                keyed("soh"@, int_text(best_soh_of(info, fractions.soh_ratio_percent) as int)),
                keyed("fast_chg_type"@, info.fast_charge_type),
                keyed("charge_tech"@, info.charge_technology),
                keyed("wireless"@, int_text(info.wireless_online as int)),
                keyed("wireless_type"@, info.wireless_type),
                keyed("input_current"@, int_text(info.input_current_max as int)),
                keyed("charge_full"@, int_text(best_fcc_mah_of(info) as int)),
                keyed("fcc"@, int_text(best_fcc_mah_of(info) as int)),
                keyed("rm"@, int_text(capacity_mah(best_rm_of(info)) as int)),
                keyed("design_capacity"@, int_text(capacity_mah(info.charge_full_design) as int)),
                keyed("qmax"@, int_text(capacity_mah(info.fg_qmax) as int)),
                keyed("adapter_power"@, int_text(info.adapter_power_w as int)),
                keyed("cp_online"@, int_text(info.cp_online as int)),
                keyed("cp_iin_m"@, int_text(info.cp_master_iin as int)),
                keyed("cp_iin_s"@, int_text(info.cp_slave_iin as int)),
                keyed("pd_verified"@, int_text(info.pd_verified as int)),
                keyed("quick_charge_type"@, info.quick_charge_type),
                keyed("die_temp"@, int_text(info.die_temperature as int)),
                keyed("typec_mode"@, info.typec_mode),
                keyed("cc_orientation"@, int_text(info.cc_orientation as int)),
            ],
        ),
{
    lemma_charger_report(info, fractions);
}

/// The charger report ends with the connector, the switches, the gauge and the
/// board.
pub proof fn charger_report_gives_the_device(
    info: ChargerInfoView,
    fractions: FractionalReadingsView,
)
    ensures
        stand_in(
            charger_report(info, fractions),
            seq![
                keyed("remaining_time"@, int_text(info.remaining_time as int)),
                keyed("smart_chg"@, int_text(info.smart_chg as int)),
                keyed("night_chg"@, int_text(info.night_charging as int)),
                keyed("sport"@, int_text(info.sport_mode as int)),
                keyed("input_suspend"@, int_text(info.input_suspend as int)),
                keyed("moisture"@, int_text(flag(info.moisture_detected) as int)),
                keyed("cell1_v"@, int_text(info.cell1_vol as int)),
                keyed("cell2_v"@, int_text(info.cell2_vol as int)),
                keyed("fg_qmax"@, int_text(info.fg_qmax as int)),
                keyed("fg_ai"@, int_text(info.fg_ai as int)),
                keyed("fg_avg_cur"@, int_text(info.fg_avg_current as int)),
                keyed("fg_vendor"@, info.fg_vendor),
                keyed("authentic"@, int_text(info.authentic as int)),
                keyed("max_life_t"@, int_text(info.max_life_temp as int)),
                keyed("max_life_v"@, int_text(info.max_life_vol as int)),
                keyed("board_temp"@, int_text(info.thermal_board_temp as int)),
                keyed("flash"@, int_text(flag(info.flash_active) as int)),
                keyed("hifi"@, int_text(flag(info.hifi_connect) as int)),
                keyed("fake_soc"@, int_text(info.fake_soc as int)),
                keyed("fake_soh"@, int_text(info.fake_soh as int)),
            ],
        ),
{
    lemma_charger_report(info, fractions);
}

/// The health report gives the health, the capacities and the gauge.
pub proof fn soh_report_gives_the_gauge(info: ChargerInfoView, fractions: FractionalReadingsView)
    ensures
        stand_in(
            soh_report(info, fractions),
            seq![
                keyed("soh"@, int_text(best_soh_of(info, fractions.soh_ratio_percent) as int)),
                keyed("charge_full"@, int_text(best_fcc_mah_of(info) as int)),
                keyed(
                    "charge_full_design"@,
                    int_text(capacity_mah(info.charge_full_design) as int),
                ),
                keyed("charge_counter"@, int_text(capacity_mah(info.charge_counter) as int)),
                keyed("fcc"@, int_text(best_fcc_mah_of(info) as int)),
                keyed("rm"@, int_text(capacity_mah(best_rm_of(info)) as int)),
                keyed("design_capacity"@, int_text(capacity_mah(info.charge_full_design) as int)),
                keyed("qmax"@, int_text(capacity_mah(info.fg_qmax) as int)),
                keyed("cycle"@, int_text(best_cycle_of(info) as int)),
                keyed("battery_type"@, best_battery_type_of(info)),
                keyed("gauge_type"@, gauge_type_or_unknown(info)),
                keyed("capacity"@, int_text(info.battery_capacity as int)),
                keyed("temp"@, int_text(info.battery_temp as int)),
                keyed("status"@, info.battery_status),
                keyed("fg_soh"@, int_text(info.fg_soh as int)),
                keyed("fg_fcc"@, int_text(info.fg_fcc as int)),
                keyed("fg_rm"@, int_text(info.fg_rm as int)),
                keyed("fg_rsoc"@, int_text(info.fg_rsoc as int)),
                keyed("fg_cycle"@, int_text(info.fg_cycle as int)),
                keyed("fg_ai"@, int_text(info.fg_ai as int)),
                keyed("fg_qmax"@, int_text(info.fg_qmax as int)),
                keyed("fg_vendor"@, info.fg_vendor),
                keyed("gauge_info"@, info.gauge_info),
                keyed("die_temp"@, int_text(info.die_temperature as int)),
                keyed("remaining_time"@, int_text(info.remaining_time as int)),
                keyed("max_life_temp"@, int_text(info.max_life_temp as int)),
                keyed("max_life_vol"@, int_text(info.max_life_vol as int)),
                keyed("over_vol_dur"@, int_text(info.over_vol_duration as int)),
            ],
        ),
{
    reveal(soh_report);
    let fields = joined(soh_fields(info, fractions), ";"@);
    lemma_contains_middle(Seq::empty(), ";"@ + fields + ";"@, Seq::empty());
    assert(Seq::<char>::empty() + (";"@ + fields + ";"@) + Seq::<char>::empty() =~= ";"@
        + soh_report(info, fractions) + ";"@);
}

/// A mark is written as 1 or 0, and a gauge without a type as unknown.
pub proof fn marks_and_unknowns_are_written(info: ChargerInfoView)
    ensures
        flag(true) == 1,
        flag(false) == 0,
        info.gauge_type.len() > 0 ==> gauge_type_or_unknown(info) == info.gauge_type,
        info.gauge_type.len() == 0 ==> gauge_type_or_unknown(info) == "unknown"@,
{
}

/// A temperature in tenths is written with one decimal, and a negative one as the
/// positive one after a minus sign.
pub proof fn tenths_are_written(whole: int, tenth: int)
    requires
        whole >= 0,
        0 <= tenth <= 9,
    ensures
        tenths_text(10 * whole + tenth) == int_text(whole) + "."@ + int_text(tenth),
        whole + tenth > 0 ==> tenths_text(-(10 * whole + tenth)) == "-"@ + (int_text(whole) + "."@
            + int_text(tenth)),
{
    let n = 10 * whole + tenth;
    assert(n / 10 == whole && n % 10 == tenth);
    assert(tenths_text(n) =~= int_text(whole) + "."@ + int_text(tenth));
    if n > 0 {
        assert(tenths_text(-n) =~= "-"@ + (int_text(whole) + "."@ + int_text(tenth)));
    }
}

// ── comma-separated reports ──

proof fn lemma_no_comma_in_numbers(n: int)
    ensures
        !int_text(n).contains(','),
{
    lemma_int_text_chars(n);
}

proof fn lemma_comma_list(items: Seq<Seq<char>>)
    requires
        items.len() > 0,
        forall|i: int| 0 <= i < items.len() ==> !(#[trigger] items[i]).contains(','),
    ensures
        text_pieces(joined(items, ","@), Separator::Char(',')) == items,
{
    reveal_strlit(",");
    assert(","@ =~= seq![',']);
    joined_list_splits_back(items, ',');
}

/// The balance report gives the voltages of the two cells and how far they lie
/// apart, whichever is higher; then the resistance scale, the average current, the
/// maximum charge, the gauge's activity, and 1 where its vendor is known.
pub proof fn balance_report_compares_the_cells(info: ChargerInfoView)
    ensures
        ({
            let values = text_pieces(balance_report(info), Separator::Char(','));
            let exchanged = ChargerInfoView {
                cell1_vol: info.cell2_vol,
                cell2_vol: info.cell1_vol,
                ..info
            };
            let apart = info.cell1_vol - info.cell2_vol;
            &&& values.len() == 8
            &&& values[0] == int_text(info.cell1_vol as int)
            &&& values[1] == int_text(info.cell2_vol as int)
            &&& 0 <= apart <= i32::MAX ==> values[2] == int_text(apart)
            &&& -i32::MAX <= apart <= 0 ==> values[2] == int_text(-apart)
            &&& apart > i32::MAX || -apart > i32::MAX ==> values[2] == int_text(i32::MAX as int)
            &&& text_pieces(balance_report(exchanged), Separator::Char(','))[2] == values[2]
            &&& values[3] == int_text(info.cell1_rascale as int)
            &&& values[4] == int_text(info.fg_avg_current as int)
            &&& values[5] == int_text(info.fg_qmax as int)
            &&& values[6] == int_text(info.fg_ai as int)
            &&& info.fg_vendor.len() > 0 ==> values[7] == "1"@
            &&& info.fg_vendor.len() == 0 ==> values[7] == "0"@
        }),
{
    let exchanged = ChargerInfoView {
        cell1_vol: info.cell2_vol,
        cell2_vol: info.cell1_vol,
        ..info
    };
    lemma_balance_values(info);
    lemma_balance_values(exchanged);
}

proof fn lemma_balance_values(info: ChargerInfoView)
    ensures
        ({
            let values = text_pieces(balance_report(info), Separator::Char(','));
            let apart = if info.cell1_vol >= info.cell2_vol {
                info.cell1_vol - info.cell2_vol
            } else {
                info.cell2_vol - info.cell1_vol
            };
            &&& values.len() == 8
            &&& values[0] == int_text(info.cell1_vol as int)
            &&& values[1] == int_text(info.cell2_vol as int)
            &&& values[2] == int_text(if apart > i32::MAX {
                i32::MAX as int
            } else {
                apart
            })
            &&& values[3] == int_text(info.cell1_rascale as int)
            &&& values[4] == int_text(info.fg_avg_current as int)
            &&& values[5] == int_text(info.fg_qmax as int)
            &&& values[6] == int_text(info.fg_ai as int)
            &&& values[7] == if info.fg_vendor.len() == 0 {
                "0"@
            } else {
                "1"@
            }
        }),
{
    let apart = if info.cell1_vol >= info.cell2_vol {
        info.cell1_vol - info.cell2_vol
    } else {
        info.cell2_vol - info.cell1_vol
    };
    let shown = if apart > i32::MAX {
        i32::MAX as int
    } else {
        apart
    };
    let vendor = if info.fg_vendor.len() == 0 {
        "0"@
    } else {
        "1"@
    };
    let items = seq![
        int_text(info.cell1_vol as int),
        int_text(info.cell2_vol as int),
        int_text(shown),
        int_text(info.cell1_rascale as int),
        int_text(info.fg_avg_current as int),
        int_text(info.fg_qmax as int),
        int_text(info.fg_ai as int),
        vendor,
    ];
    reveal_strlit("0");
    reveal_strlit("1");
    lemma_no_comma_in_numbers(info.cell1_vol as int);
    lemma_no_comma_in_numbers(info.cell2_vol as int);
    lemma_no_comma_in_numbers(shown);
    lemma_no_comma_in_numbers(info.cell1_rascale as int);
    lemma_no_comma_in_numbers(info.fg_avg_current as int);
    lemma_no_comma_in_numbers(info.fg_qmax as int);
    lemma_no_comma_in_numbers(info.fg_ai as int);
    assert(!vendor.contains(','));
    lemma_comma_list(items);
    assert(balance_report(info) == joined(items, ","@));
}

/// The USB types have the codes 1 to 6, by their names with or without the prefix:
/// standard port, charging port, dedicated port, high voltage, negotiated power and
/// high voltage in its third version.
pub proof fn usb_names_have_codes(lowered: Seq<char>)
    ensures
        usb_code_by("USB"@, lowered) == "1"@ && usb_code_by("SDP"@, lowered) == "1"@,
        usb_code_by("USB_CDP"@, lowered) == "2"@ && usb_code_by("CDP"@, lowered) == "2"@,
        usb_code_by("USB_DCP"@, lowered) == "3"@ && usb_code_by("DCP"@, lowered) == "3"@,
        usb_code_by("USB_HVDCP"@, lowered) == "4"@ && usb_code_by("HVDCP"@, lowered) == "4"@,
        usb_code_by("USB_PD"@, lowered) == "5"@ && usb_code_by("PD"@, lowered) == "5"@
            && usb_code_by("PD_ACTIVE"@, lowered) == "5"@,
        usb_code_by("USB_HVDCP_3"@, lowered) == "6"@ && usb_code_by("HVDCP_3"@, lowered) == "6"@,
{
    reveal_strlit("USB");
    reveal_strlit("SDP");
    reveal_strlit("USB_CDP");
    reveal_strlit("CDP");
    reveal_strlit("USB_DCP");
    reveal_strlit("DCP");
    reveal_strlit("USB_HVDCP");
    reveal_strlit("HVDCP");
    reveal_strlit("USB_PD");
    reveal_strlit("PD");
    reveal_strlit("PD_ACTIVE");
    reveal_strlit("USB_HVDCP_3");
    reveal_strlit("HVDCP_3");
    assert("USB"@.len() == 3);
    assert("SDP"@.len() == 3);
    assert("USB_CDP"@.len() == 7);
    assert("CDP"@.len() == 3);
    assert("USB_DCP"@.len() == 7);
    assert("DCP"@.len() == 3);
    assert("USB_HVDCP"@.len() == 9);
    assert("HVDCP"@.len() == 5);
    assert("USB_PD"@.len() == 6);
    assert("PD"@.len() == 2);
    assert("PD_ACTIVE"@.len() == 9);
    assert("USB_HVDCP_3"@.len() == 11);
    assert("HVDCP_3"@.len() == 7);
    assert("USB"@[0] != "SDP"@[0]);
    assert("USB"@[0] != "CDP"@[0]);
    assert("USB"@[0] != "DCP"@[0]);
    assert("SDP"@[0] != "CDP"@[0]);
    assert("SDP"@[0] != "DCP"@[0]);
    assert("USB_CDP"@[4] != "USB_DCP"@[4]);
    assert("USB_CDP"@[0] != "HVDCP_3"@[0]);
    assert("CDP"@[0] != "DCP"@[0]);
    assert("USB_DCP"@[0] != "HVDCP_3"@[0]);
    assert("USB_HVDCP"@[0] != "PD_ACTIVE"@[0]);
}

/// A USB type of another name has the code of the strongest protocol that its name
/// in lower case holds, and 0 where it holds none.
pub proof fn other_usb_names_go_by_protocol(usb_type: Seq<char>, lowered: Seq<char>)
    requires
        usb_type != "USB"@ && usb_type != "SDP"@,
        usb_type != "USB_CDP"@ && usb_type != "CDP"@,
        usb_type != "USB_DCP"@ && usb_type != "DCP"@,
        usb_type != "USB_HVDCP"@ && usb_type != "HVDCP"@,
        usb_type != "USB_PD"@ && usb_type != "PD"@ && usb_type != "PD_ACTIVE"@,
        usb_type != "USB_HVDCP_3"@ && usb_type != "HVDCP_3"@,
    ensures
        ({
            let negotiated = contains_text(lowered, "pd"@);
            let high = contains_text(lowered, "hvdcp"@);
            let dedicated = contains_text(lowered, "dcp"@);
            let charging = contains_text(lowered, "cdp"@);
            let code = usb_code_by(usb_type, lowered);
            &&& negotiated ==> code == "5"@
            &&& high && !negotiated ==> code == "4"@
            &&& dedicated && !high && !negotiated ==> code == "3"@
            &&& charging && !dedicated && !high && !negotiated ==> code == "2"@
            &&& !charging && !dedicated && !high && !negotiated ==> code == "0"@
        }),
{
}

proof fn lemma_no_comma_in_codes(usb_type: Seq<char>, lowered: Seq<char>)
    ensures
        !usb_code_by(usb_type, lowered).contains(','),
{
    reveal_strlit("0");
    reveal_strlit("1");
    reveal_strlit("2");
    reveal_strlit("3");
    reveal_strlit("4");
    reveal_strlit("5");
    reveal_strlit("6");
    let code = usb_code_by(usb_type, lowered);
    assert(code.len() == 1 && code[0] != ',');
}

/// The USB report gives, on any power source, whether USB is connected, the code of
/// the USB type, the input limit, and the battery's voltage, current and
/// temperature; without one it is all zeros.
pub proof fn usb_report_gives_the_input(info: ChargerInfoView)
    ensures
        ({
            let online = info.usb_online != 0 || info.ac_online != 0 || info.wireless_online != 0;
            let values = text_pieces(usb_report(info), Separator::Char(','));
            let usb_type = if info.usb_real_type.len() > 0 {
                info.usb_real_type
            } else {
                info.usb_type
            };
            &&& !online ==> usb_report(info) == "0,0,0,0,0,0"@
            &&& online ==> {
                &&& values.len() == 6
                &&& values[0] == int_text(info.usb_online as int)
                &&& values[1] == usb_code_by(usb_type, unicode_lower(usb_type))
                &&& values[2] == int_text(info.input_current_max as int)
                &&& values[3] == int_text(info.battery_voltage_now as int)
                &&& values[4] == int_text(info.battery_current_now as int)
                &&& values[5] == int_text(info.battery_temp as int)
            }
        }),
{
    let usb_type = info.effective_usb_type();
    let items = seq![
        int_text(info.usb_online as int),
        usb_code_by(usb_type, unicode_lower(usb_type)),
        int_text(info.input_current_max as int),
        int_text(info.battery_voltage_now as int),
        int_text(info.battery_current_now as int),
        int_text(info.battery_temp as int),
    ];
    lemma_no_comma_in_codes(usb_type, unicode_lower(usb_type));
    lemma_no_comma_in_numbers(info.usb_online as int);
    lemma_no_comma_in_numbers(info.input_current_max as int);
    lemma_no_comma_in_numbers(info.battery_voltage_now as int);
    lemma_no_comma_in_numbers(info.battery_current_now as int);
    lemma_no_comma_in_numbers(info.battery_temp as int);
    lemma_comma_list(items);
}

/// The battery is shown as charging on a wired charger that is held back, and as
/// discharging where it claims to charge without a power source; otherwise its own
/// status is shown. A wireless charger that is held back changes nothing.
pub proof fn shown_status_follows_the_charger(
    info: ChargerInfoView,
    snapshot: FastChargeSnapshotView,
    held_back: bool,
)
    ensures
        ({
            let wired = snapshot.usb_online != 0 || snapshot.ac_online != 0;
            let claims = lower_text(info.battery_status) == lower_text("Charging"@);
            let shown = shown_status(info, snapshot, held_back);
            &&& held_back && wired ==> shown == "Charging"@
            &&& !(held_back && wired) && !snapshot.online && claims ==> shown == "Discharging"@
            &&& !(held_back && wired) && (snapshot.online || !claims) ==> shown
                == info.battery_status
        }),
{
}

/// The battery report gives, each in its place: the status that is shown, the
/// percent, the voltage, the current, the temperature, the health, the technology,
/// the type, the charge type, the capacities in mAh, the fast-charge type, the
/// input limit and whether the battery is authentic.
pub proof fn battery_report_gives_the_battery(
    info: ChargerInfoView,
    snapshot: FastChargeSnapshotView,
    held_back: bool,
)
    requires
        !info.battery_status.contains(','),
        !info.battery_health.contains(','),
        !info.battery_technology.contains(','),
        !info.battery_type.contains(','),
        !info.battery_charge_type.contains(','),
        !info.fast_charge_type.contains(','),
    ensures
        ({
            let values = text_pieces(
                battery_report(info, snapshot, held_back),
                Separator::Char(','),
            );
            &&& values.len() == 17
            &&& values[0] == shown_status(info, snapshot, held_back)
            &&& values[1] == int_text(info.battery_capacity as int)
            &&& values[2] == int_text(info.battery_voltage_now as int)
            &&& values[3] == int_text(info.battery_current_now as int)
            &&& values[4] == int_text(info.battery_temp as int)
            &&& values[5] == info.battery_health
            &&& values[6] == info.battery_technology
            &&& values[7] == best_battery_type_of(info)
            &&& values[8] == info.battery_charge_type
            &&& values[9] == int_text(best_fcc_mah_of(info) as int)
            &&& values[10] == int_text(capacity_mah(info.charge_full_design) as int)
            &&& values[11] == int_text(capacity_mah(info.charge_counter) as int)
            &&& values[12] == int_text(capacity_mah(best_rm_of(info)) as int)
            &&& values[13] == int_text(capacity_mah(info.fg_qmax) as int)
            &&& values[14] == info.fast_charge_type
            &&& values[15] == int_text(info.input_current_max as int)
            &&& values[16] == int_text(info.authentic as int)
        }),
{
    let items = battery_fields(info, snapshot, held_back);
    reveal_strlit("Charging");
    reveal_strlit("Discharging");
    reveal_strlit("unknown");
    lemma_no_comma_in_numbers(info.battery_capacity as int);
    lemma_no_comma_in_numbers(info.battery_voltage_now as int);
    lemma_no_comma_in_numbers(info.battery_current_now as int);
    lemma_no_comma_in_numbers(info.battery_temp as int);
    lemma_no_comma_in_numbers(best_fcc_mah_of(info) as int);
    lemma_no_comma_in_numbers(capacity_mah(info.charge_full_design) as int);
    lemma_no_comma_in_numbers(capacity_mah(info.charge_counter) as int);
    lemma_no_comma_in_numbers(capacity_mah(best_rm_of(info)) as int);
    lemma_no_comma_in_numbers(capacity_mah(info.fg_qmax) as int);
    lemma_no_comma_in_numbers(info.input_current_max as int);
    lemma_no_comma_in_numbers(info.authentic as int);
    assert(!best_battery_type_of(info).contains(','));
    assert(!shown_status(info, snapshot, held_back).contains(','));
    lemma_comma_list(items);
}

/// On a power source the decimal report is the pair of values to move between, of
/// the percent that was last published; without one it is zeros, and nothing moves.
pub proof fn decimal_report_is_a_pair(adapter: AdapterView)
    ensures
        ({
            let (after, text) = adapter.decimal_reported();
            let values = text_pieces(text, Separator::Char(','));
            let (state, (start, end)) = decimal_report(
                adapter.decimal_soc,
                adapter.battery_capacity_cache,
                adapter.decimal_soc_seed,
                adapter.decimal_soc_rate,
            );
            &&& !adapter.fast_charge_snapshot.online ==> after == adapter && text == "0,0"@
            &&& adapter.fast_charge_snapshot.online ==> {
                &&& values.len() == 2
                &&& values[0] == int_text(start as int)
                &&& values[1] == int_text(end as int)
                &&& after == AdapterView { decimal_soc: state, ..adapter }
            }
        }),
{
    let pair = decimal_report(
        adapter.decimal_soc,
        adapter.battery_capacity_cache,
        adapter.decimal_soc_seed,
        adapter.decimal_soc_rate,
    ).1;
    lemma_no_comma_in_numbers(pair.0 as int);
    lemma_no_comma_in_numbers(pair.1 as int);
    lemma_comma_list(seq![int_text(pair.0 as int), int_text(pair.1 as int)]);
}

/// What is published is what clients are answered with from then on, and the
/// controls that they set stay.
pub proof fn publishing_replaces_the_answers(
    adapter: AdapterView,
    info: ChargerInfoView,
    fractions: FractionalReadingsView,
    seed: i32,
    rate: i32,
)
    ensures
        ({
            let after = adapter.published(info, fractions, seed, rate);
            &&& after.info == info && after.fractions == fractions
            &&& after.charger_info_json == charger_report(info, fractions)
            &&& after.soh_debug_info == soh_report(info, fractions)
            &&& after.battery_balance_info == balance_report(info)
            &&& after.battery_type_cache == best_battery_type_of(info)
            &&& after.battery_auth_status == int_text(info.authentic as int)
            &&& after.fast_charge_snapshot == snapshot_of(info)
            &&& after.battery_capacity_cache == info.battery_capacity
            &&& after.decimal_soc_seed == seed && after.decimal_soc_rate == rate
            &&& after.decimal_soc == adapter.decimal_soc
            &&& after.chg_up_limit_state == adapter.chg_up_limit_state
            &&& after.chg_up_limit_value == adapter.chg_up_limit_value
            &&& after.charge_limit_active == adapter.charge_limit_active
            &&& after.bypass_charge_status == adapter.bypass_charge_status
            &&& after.charge_control_active == adapter.charge_control_active
            &&& after.charge_control_applied == adapter.charge_control_applied
            &&& after.cooldown == adapter.cooldown
            &&& after.reverse_chg_info == adapter.reverse_chg_info
            &&& after.anti_expansion_dis == adapter.anti_expansion_dis
            &&& after.battery_log_enabled == adapter.battery_log_enabled
        }),
{
}

} // verus!
