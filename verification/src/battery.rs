//! The best available value of each battery metric.

use crate::adapter::Adapter;
use crate::info::{ChargerInfo, ChargerInfoView};
use crate::text::{contains, contains_text, unicode_lower};
use crate::text_laws::{lemma_contains_middle, lemma_no_letter_no_word};
use crate::units::{
    as_clamped_i32, capacity_mah, clamp_i32, clamp_i64_to_i32, clamped, normalize_capacity_mah,
};
use vstd::prelude::*;

verus! {

/// `a / b` rounded toward zero.
pub open spec fn trunc_div(a: int, b: int) -> int {
    if a < 0 {
        -((-a) / b)
    } else {
        a / b
    }
}

/// The state of health in percent: the gauge's where it is sound, and
/// otherwise `ratio_percent`, the share of the design capacity that the full
/// capacity is, between 0 and 100.
pub open spec fn best_soh_of(info: ChargerInfoView, ratio_percent: i32) -> i32 {
    if 0 < info.fg_soh <= 100 {
        info.fg_soh
    } else if info.charge_full > 0 && info.charge_full_design > 0 {
        clamped(ratio_percent as int, 0, 100) as i32
    } else {
        0
    }
}

pub open spec fn best_fcc_of(info: ChargerInfoView) -> i32 {
    if info.fg_fcc > 0 {
        info.fg_fcc
    } else {
        info.charge_full
    }
}

pub open spec fn best_fcc_mah_of(info: ChargerInfoView) -> i32 {
    capacity_mah(best_fcc_of(info))
}

/// The remaining charge: the gauge's, or the share of the full charge that the
/// state of charge gives. A gauge state of charge over 100 is in hundredths of
/// a percent.
pub open spec fn best_rm_of(info: ChargerInfoView) -> i32 {
    if info.fg_rm > 0 {
        info.fg_rm
    } else if info.fg_fcc > 0 && info.fg_rsoc > 0 {
        let denominator: int = if info.fg_rsoc > 100 {
            10000
        } else {
            100
        };
        as_clamped_i32(info.fg_fcc as int * info.fg_rsoc as int / denominator)
    } else {
        as_clamped_i32(trunc_div(info.charge_full as int * info.battery_capacity as int, 100))
    }
}

pub open spec fn best_cycle_of(info: ChargerInfoView) -> i32 {
    if info.fg_cycle > 0 {
        info.fg_cycle
    } else {
        info.cycle_count
    }
}

pub open spec fn best_battery_type_of(info: ChargerInfoView) -> Seq<char> {
    if info.battery_type.len() > 0 {
        info.battery_type
    } else if info.battery_technology.len() > 0 {
        info.battery_technology
    } else {
        "unknown"@
    }
}

/// A battery type in lower case that names a silicon anode.
pub open spec fn names_silicon(lowered: Seq<char>) -> bool {
    contains_text(lowered, "silicon"@) || contains_text(lowered, "si-c"@) || contains_text(
        lowered,
        "sic"@,
    )
}

/// `a * b / 100`, rounded toward zero.
fn percent_of(a: i32, b: i32) -> (r: i64)
    ensures
        r == trunc_div(a as int * b as int, 100),
{
    assert(-0x4000_0000_0000_0000 <= a * b <= 0x4000_0000_0000_0000) by (nonlinear_arith)
        requires
            -0x8000_0000 <= a <= 0x7fff_ffff,
            -0x8000_0000 <= b <= 0x7fff_ffff,
    ;
    let product: i64 = a as i64 * b as i64;
    if product < 0 {
        -((-product) / 100)
    } else {
        product / 100
    }
}

impl Adapter {
    /// The state of health, with `ratio_percent` the full capacity in percent
    /// of the design capacity.
    pub fn best_soh(info: &ChargerInfo, ratio_percent: i32) -> (r: i32)
        ensures
            r == best_soh_of(info@, ratio_percent),
            0 <= r <= 100,
    {
        if info.fg_soh > 0 && info.fg_soh <= 100 {
            info.fg_soh
        } else if info.charge_full > 0 && info.charge_full_design > 0 {
            clamp_i32(ratio_percent, 0, 100)
        } else {
            0
        }
    }

    pub fn best_fcc(info: &ChargerInfo) -> (r: i32)
        ensures
            r == best_fcc_of(info@),
    {
        if info.fg_fcc > 0 {
            info.fg_fcc
        } else {
            info.charge_full
        }
    }

    pub fn best_fcc_mah(info: &ChargerInfo) -> (r: i32)
        ensures
            r == best_fcc_mah_of(info@),
            r >= 0,
    {
        normalize_capacity_mah(Self::best_fcc(info))
    }

    pub fn best_design_capacity_mah(info: &ChargerInfo) -> (r: i32)
        ensures
            r == capacity_mah(info.charge_full_design),
    {
        normalize_capacity_mah(info.charge_full_design)
    }

    pub fn best_qmax_mah(info: &ChargerInfo) -> (r: i32)
        ensures
            r == capacity_mah(info.fg_qmax),
    {
        normalize_capacity_mah(info.fg_qmax)
    }

    pub fn best_rm(info: &ChargerInfo) -> (r: i32)
        ensures
            r == best_rm_of(info@),
    {
        if info.fg_rm > 0 {
            info.fg_rm
        } else if info.fg_fcc > 0 && info.fg_rsoc > 0 {
            let denominator: i64 = if info.fg_rsoc > 100 {
                10000
            } else {
                100
            };
            let fcc: i64 = info.fg_fcc as i64;
            let rsoc: i64 = info.fg_rsoc as i64;
            assert(0 <= fcc * rsoc <= 0x3fff_ffff_ffff_ffff) by (nonlinear_arith)
                requires
                    0 < fcc <= 0x7fff_ffff,
                    0 < rsoc <= 0x7fff_ffff,
            ;
            clamp_i64_to_i32(fcc * rsoc / denominator)
        } else {
            clamp_i64_to_i32(percent_of(info.charge_full, info.battery_capacity))
        }
    }

    pub fn best_rm_mah(info: &ChargerInfo) -> (r: i32)
        ensures
            r == capacity_mah(best_rm_of(info@)),
    {
        normalize_capacity_mah(Self::best_rm(info))
    }

    pub fn best_charge_counter_mah(info: &ChargerInfo) -> (r: i32)
        ensures
            r == capacity_mah(info.charge_counter),
    {
        normalize_capacity_mah(info.charge_counter)
    }

    pub fn best_cycle(info: &ChargerInfo) -> (r: i32)
        ensures
            r == best_cycle_of(info@),
    {
        if info.fg_cycle > 0 {
            info.fg_cycle
        } else {
            info.cycle_count
        }
    }

    pub fn best_battery_type(info: &ChargerInfo) -> (r: String)
        ensures
            r@ == best_battery_type_of(info@),
    {
        if !info.battery_type.as_str().is_empty() {
            info.battery_type.clone()
        } else if !info.battery_technology.as_str().is_empty() {
            info.battery_technology.clone()
        } else {
            "unknown".to_owned()
        }
    }

    pub fn is_silicon_battery(info: &ChargerInfo) -> (r: bool)
        ensures
            r == names_silicon(unicode_lower(best_battery_type_of(info@))),
    {
        let battery_type: String = Self::best_battery_type(info);
        let lowered: String = battery_type.as_str().to_lowercase();
        Self::is_silicon_type(lowered.as_str())
    }

    /// Whether a battery type in lower case names a silicon anode.
    pub fn is_silicon_type(lowered: &str) -> (r: bool)
        ensures
            r == names_silicon(lowered@),
    {
        contains(lowered, "silicon") || contains(lowered, "si-c") || contains(lowered, "sic")
    }
}

// ── laws ──

/// The gauge's health stands where it is a percentage, and otherwise the share of
/// the design capacity where both capacities are known; it is a percentage always.
pub proof fn health_is_a_percentage(info: ChargerInfoView, ratio_percent: i32)
    ensures
        0 <= best_soh_of(info, ratio_percent) <= 100,
        1 <= info.fg_soh <= 100 ==> best_soh_of(info, ratio_percent) == info.fg_soh,
        !(1 <= info.fg_soh <= 100) && info.charge_full > 0 && info.charge_full_design > 0 && 0
            <= ratio_percent <= 100 ==> best_soh_of(info, ratio_percent) == ratio_percent,
        !(1 <= info.fg_soh <= 100) && (info.charge_full <= 0 || info.charge_full_design <= 0)
            ==> best_soh_of(info, ratio_percent) == 0,
        !(1 <= info.fg_soh <= 100) && info.charge_full > 0 && info.charge_full_design > 0
            && ratio_percent > 100 ==> best_soh_of(info, ratio_percent) == 100,
        !(1 <= info.fg_soh <= 100) && ratio_percent < 0 ==> best_soh_of(info, ratio_percent) == 0,
{
}

/// The gauge's full charge, cycles and remaining charge stand where they are
/// known, and the kernel's otherwise.
pub proof fn gauge_metrics_come_first(info: ChargerInfoView)
    ensures
        info.fg_fcc > 0 ==> best_fcc_of(info) == info.fg_fcc,
        info.fg_fcc <= 0 ==> best_fcc_of(info) == info.charge_full,
        info.fg_cycle > 0 ==> best_cycle_of(info) == info.fg_cycle,
        info.fg_cycle <= 0 ==> best_cycle_of(info) == info.cycle_count,
        info.fg_rm > 0 ==> best_rm_of(info) == info.fg_rm,
        best_fcc_mah_of(info) == capacity_mah(best_fcc_of(info)),
{
}

/// Where the gauge does not tell the remaining charge, it is the share of the
/// full charge that the gauge's state of charge gives, in percent or in
/// hundredths, rounded down.
pub proof fn remaining_charge_is_a_share(info: ChargerInfoView)
    requires
        info.fg_rm <= 0,
        info.fg_fcc > 0,
        0 < info.fg_rsoc <= 10_000,
    ensures
        info.fg_rsoc <= 100 ==> best_rm_of(info) * 100 <= info.fg_fcc * info.fg_rsoc < (best_rm_of(
            info,
        ) + 1) * 100,
        info.fg_rsoc > 100 ==> best_rm_of(info) * 10_000 <= info.fg_fcc * info.fg_rsoc < (
        best_rm_of(info) + 1) * 10_000,
        0 <= best_rm_of(info) <= info.fg_fcc,
{
    let product = info.fg_fcc as int * info.fg_rsoc as int;
    let (fcc, rsoc) = (info.fg_fcc as int, info.fg_rsoc as int);
    assert(0 <= product <= fcc * 10_000) by (nonlinear_arith)
        requires
            product == fcc * rsoc,
            fcc > 0,
            0 < rsoc <= 10_000,
    ;
    if rsoc <= 100 {
        assert(product <= fcc * 100) by (nonlinear_arith)
            requires
                product == fcc * rsoc,
                fcc > 0,
                0 < rsoc <= 100,
        ;
    }
}

/// A gauge over full gives a share over the full charge, cut at the bound of 32 bits.
pub proof fn remaining_charge_over_full(info: ChargerInfoView)
    requires
        info.fg_rm <= 0,
        info.fg_fcc > 0,
        info.fg_rsoc > 10_000,
    ensures
        best_rm_of(info) >= info.fg_fcc,
        best_rm_of(info) < i32::MAX ==> best_rm_of(info) * 10_000 <= info.fg_fcc * info.fg_rsoc < (
        best_rm_of(info) + 1) * 10_000,
        best_rm_of(info) == i32::MAX ==> i32::MAX * 10_000 <= info.fg_fcc * info.fg_rsoc,
{
    let (fcc, rsoc) = (info.fg_fcc as int, info.fg_rsoc as int);
    assert(fcc * rsoc >= fcc * 10_000) by (nonlinear_arith)
        requires
            fcc > 0,
            rsoc > 10_000,
    ;
}

/// A full charge of the other sign gives a remaining charge of the other sign.
pub proof fn remaining_charge_keeps_the_sign(info: ChargerInfoView)
    requires
        info.fg_rm <= 0,
        info.fg_fcc <= 0 || info.fg_rsoc <= 0,
        info.charge_full > i32::MIN,
        0 <= info.battery_capacity <= 100,
    ensures
        best_rm_of(ChargerInfoView { charge_full: (-info.charge_full) as i32, ..info })
            == -best_rm_of(info),
{
    let (full, percent) = (info.charge_full as int, info.battery_capacity as int);
    let product = full * percent;
    assert((-full) * percent == -product) by (nonlinear_arith)
        requires
            product == full * percent,
    ;
    assert(-0x7fff_ffff * 100 <= product <= 0x7fff_ffff * 100) by (nonlinear_arith)
        requires
            product == full * percent,
            -0x7fff_ffff <= full <= 0x7fff_ffff,
            0 <= percent <= 100,
    ;
}

/// Without the gauge it is the share of the full charge that the percent gives.
pub proof fn remaining_charge_by_percent(info: ChargerInfoView)
    requires
        info.fg_rm <= 0,
        info.fg_fcc <= 0 || info.fg_rsoc <= 0,
        info.charge_full >= 0,
        0 <= info.battery_capacity <= 100,
    ensures
        best_rm_of(info) * 100 <= info.charge_full * info.battery_capacity < (best_rm_of(info) + 1)
            * 100,
        0 <= best_rm_of(info) <= info.charge_full,
{
    let product = info.charge_full as int * info.battery_capacity as int;
    let (full, percent) = (info.charge_full as int, info.battery_capacity as int);
    assert(0 <= product <= full * 100) by (nonlinear_arith)
        requires
            product == full * percent,
            full >= 0,
            0 <= percent <= 100,
    ;
}

/// The battery type is the one of its node, then its technology, and unknown
/// where neither is there.
pub proof fn battery_type_falls_back(info: ChargerInfoView)
    ensures
        info.battery_type.len() > 0 ==> best_battery_type_of(info) == info.battery_type,
        info.battery_type.len() == 0 && info.battery_technology.len() > 0
            ==> best_battery_type_of(info) == info.battery_technology,
        info.battery_type.len() == 0 && info.battery_technology.len() == 0
            ==> best_battery_type_of(info) == "unknown"@,
{
}

/// A silicon anode is named in full or in one of its two short forms, anywhere in
/// the type.
pub proof fn silicon_is_found_by_name(before: Seq<char>, after: Seq<char>)
    ensures
        names_silicon(before + "silicon"@ + after),
        names_silicon(before + "si-c"@ + after),
        names_silicon(before + "sic"@ + after),
        names_silicon(before) ==> contains_text(before, "silicon"@) || contains_text(
            before,
            "si-c"@,
        ) || contains_text(before, "sic"@),
        !names_silicon("li-ion"@) && !names_silicon("li-poly"@) && !names_silicon("unknown"@),
{
    lemma_contains_middle(before, "silicon"@, after);
    lemma_contains_middle(before, "si-c"@, after);
    lemma_contains_middle(before, "sic"@, after);
    reveal_strlit("silicon");
    reveal_strlit("si-c");
    reveal_strlit("sic");
    reveal_strlit("li-ion");
    reveal_strlit("li-poly");
    reveal_strlit("unknown");
    assert("silicon"@[0] == 's' && "si-c"@[0] == 's' && "sic"@[0] == 's');
    lemma_no_letter_no_word("li-ion"@, "silicon"@, 's');
    lemma_no_letter_no_word("li-ion"@, "si-c"@, 's');
    lemma_no_letter_no_word("li-ion"@, "sic"@, 's');
    lemma_no_letter_no_word("li-poly"@, "silicon"@, 's');
    lemma_no_letter_no_word("li-poly"@, "si-c"@, 's');
    lemma_no_letter_no_word("li-poly"@, "sic"@, 's');
    lemma_no_letter_no_word("unknown"@, "silicon"@, 's');
    lemma_no_letter_no_word("unknown"@, "si-c"@, 's');
    lemma_no_letter_no_word("unknown"@, "sic"@, 's');
}

} // verus!
