//! The adapter state: what was last published, and the controls that clients
//! set.

use crate::battery::{
    best_battery_type_of, best_cycle_of, best_fcc_mah_of, best_rm_of, best_soh_of, names_silicon,
};
use crate::control::new_adapter_controls_agree;
use crate::decimal_soc::{decimal_report, unused_decimal_soc, DecimalSocState};
use crate::info::{unscanned_info, ChargerInfo, ChargerInfoView};
use crate::report::{
    balance_report, battery_report, charger_report, soh_report, usb_report, zero_fractions,
    FractionalReadings, FractionalReadingsView,
};
use crate::snapshot::{snapshot_of, FastChargeSnapshot, FastChargeSnapshotView};
use crate::text::{decimal, int_text, joined, unicode_lower, Joiner};
use crate::units::{abs_i32_to_i64, as_clamped_i32, capacity_mah, clamp_i64_to_i32, magnitude};
use vstd::prelude::*;

verus! {

pub const SHORT_CIRCUIT_HEALTHY: i32 = 1;

/// The adapter behind the service.
pub struct Adapter {
    /// The last published charging state.
    pub info: ChargerInfo,
    /// The fractional readings that belong to `info`.
    pub fractions: FractionalReadings,
    pub charger_info_json: String,
    /// No reverse charging is there; the text is kept for clients.
    pub reverse_chg_info: String,
    /// From the voltages of the two cells.
    pub battery_balance_info: String,
    /// Kept for clients.
    pub usb_eye_diagram: String,
    pub battery_auth_status: String,
    pub battery_type_cache: String,
    pub fast_charge_snapshot: FastChargeSnapshot,
    pub battery_capacity_cache: i32,
    pub decimal_soc_seed: i32,
    pub decimal_soc_rate: i32,
    pub decimal_soc: DecimalSocState,
    /// Kept for clients.
    pub quick_mode_gain: String,
    pub soh_debug_info: String,
    /// Kept for clients.
    pub bcc_anode_type: String,
    /// Kept for clients.
    pub eis_switch_status: String,
    /// Kept for clients.
    pub sili_ic_alg_cfg: String,
    pub chg_up_limit_state: String,
    pub chg_up_limit_value: String,
    pub charge_limit_active: bool,
    pub bypass_charge_status: String,
    pub charge_control_active: bool,
    /// What the control nodes were last told; `None` where they must be told anew.
    pub charge_control_applied: Option<bool>,
    /// Kept for clients.
    pub cooldown: String,
    /// Kept for clients.
    pub anti_expansion_dis: String,
    /// Kept for clients.
    pub battery_log_enabled: bool,
}

/// An [`Adapter`] with its texts as character sequences.
#[verifier::ext_equal]
pub struct AdapterView {
    pub info: ChargerInfoView,
    pub fractions: FractionalReadingsView,
    pub charger_info_json: Seq<char>,
    pub reverse_chg_info: Seq<char>,
    pub battery_balance_info: Seq<char>,
    pub usb_eye_diagram: Seq<char>,
    pub battery_auth_status: Seq<char>,
    pub battery_type_cache: Seq<char>,
    pub fast_charge_snapshot: FastChargeSnapshotView,
    pub battery_capacity_cache: i32,
    pub decimal_soc_seed: i32,
    pub decimal_soc_rate: i32,
    pub decimal_soc: DecimalSocState,
    pub quick_mode_gain: Seq<char>,
    pub soh_debug_info: Seq<char>,
    pub bcc_anode_type: Seq<char>,
    pub eis_switch_status: Seq<char>,
    pub sili_ic_alg_cfg: Seq<char>,
    pub chg_up_limit_state: Seq<char>,
    pub chg_up_limit_value: Seq<char>,
    pub charge_limit_active: bool,
    pub bypass_charge_status: Seq<char>,
    pub charge_control_active: bool,
    pub charge_control_applied: Option<bool>,
    pub cooldown: Seq<char>,
    pub anti_expansion_dis: Seq<char>,
    pub battery_log_enabled: bool,
}

impl View for Adapter {
    type V = AdapterView;

    open spec fn view(&self) -> AdapterView {
        AdapterView {
            info: self.info@,
            fractions: self.fractions@,
            charger_info_json: self.charger_info_json@,
            reverse_chg_info: self.reverse_chg_info@,
            battery_balance_info: self.battery_balance_info@,
            usb_eye_diagram: self.usb_eye_diagram@,
            battery_auth_status: self.battery_auth_status@,
            battery_type_cache: self.battery_type_cache@,
            fast_charge_snapshot: self.fast_charge_snapshot@,
            battery_capacity_cache: self.battery_capacity_cache,
            decimal_soc_seed: self.decimal_soc_seed,
            decimal_soc_rate: self.decimal_soc_rate,
            decimal_soc: self.decimal_soc,
            quick_mode_gain: self.quick_mode_gain@,
            soh_debug_info: self.soh_debug_info@,
            bcc_anode_type: self.bcc_anode_type@,
            eis_switch_status: self.eis_switch_status@,
            sili_ic_alg_cfg: self.sili_ic_alg_cfg@,
            chg_up_limit_state: self.chg_up_limit_state@,
            chg_up_limit_value: self.chg_up_limit_value@,
            charge_limit_active: self.charge_limit_active,
            bypass_charge_status: self.bypass_charge_status@,
            charge_control_active: self.charge_control_active,
            charge_control_applied: self.charge_control_applied,
            cooldown: self.cooldown@,
            anti_expansion_dis: self.anti_expansion_dis@,
            battery_log_enabled: self.battery_log_enabled,
        }
    }
}

/// The adapter before its first scan.
pub open spec fn new_adapter() -> AdapterView {
    let info = unscanned_info();
    AdapterView {
        info,
        fractions: zero_fractions(),
        charger_info_json: charger_report(info, zero_fractions()),
        reverse_chg_info: "0,0,0"@,
        battery_balance_info: "0,0,0,0,0,0,0,0"@,
        usb_eye_diagram: "0,0,0,0,0,0,0,0,0,0"@,
        battery_auth_status: int_text(info.authentic as int),
        battery_type_cache: best_battery_type_of(info),
        fast_charge_snapshot: snapshot_of(info),
        battery_capacity_cache: info.battery_capacity,
        decimal_soc_seed: 0,
        decimal_soc_rate: 0,
        decimal_soc: unused_decimal_soc(),
        quick_mode_gain: "0,0"@,
        soh_debug_info: soh_report(info, zero_fractions()),
        bcc_anode_type: "0"@,
        eis_switch_status: "0"@,
        sili_ic_alg_cfg: "0"@,
        chg_up_limit_state: "0"@,
        chg_up_limit_value: "90"@,
        charge_limit_active: false,
        bypass_charge_status: "0"@,
        charge_control_active: false,
        charge_control_applied: Some(false),
        cooldown: "0"@,
        anti_expansion_dis: "0"@,
        battery_log_enabled: false,
    }
}

impl AdapterView {
    /// The adapter once the result of a scan is published.
    pub open spec fn published(
        self,
        info: ChargerInfoView,
        fractions: FractionalReadingsView,
        decimal_seed: i32,
        decimal_rate: i32,
    ) -> AdapterView {
        AdapterView {
            info,
            fractions,
            charger_info_json: charger_report(info, fractions),
            soh_debug_info: soh_report(info, fractions),
            battery_type_cache: best_battery_type_of(info),
            battery_auth_status: int_text(info.authentic as int),
            battery_balance_info: balance_report(info),
            fast_charge_snapshot: snapshot_of(info),
            battery_capacity_cache: info.battery_capacity,
            decimal_soc_seed: decimal_seed,
            decimal_soc_rate: decimal_rate,
            ..self
        }
    }

    /// What is kept ready for clients is what the published state gives.
    pub open spec fn caches_agree(self) -> bool {
        &&& self.charger_info_json == charger_report(self.info, self.fractions)
        &&& self.soh_debug_info == soh_report(self.info, self.fractions)
        &&& self.battery_type_cache == best_battery_type_of(self.info)
        &&& self.battery_auth_status == int_text(self.info.authentic as int)
        &&& self.battery_balance_info == balance_report(self.info)
        &&& self.fast_charge_snapshot == snapshot_of(self.info)
        &&& self.battery_capacity_cache == self.info.battery_capacity
    }

    /// The adapter power that is shown: 0 without a power source.
    pub open spec fn shown_power(self) -> i32 {
        if !self.fast_charge_snapshot.online {
            0
        } else if self.fast_charge_snapshot.adapter_power_w > 0 {
            self.fast_charge_snapshot.adapter_power_w
        } else {
            self.info.adapter_power_w
        }
    }

    /// The next decimal report and the adapter after it.
    pub open spec fn decimal_reported(self) -> (AdapterView, Seq<char>) {
        if !self.fast_charge_snapshot.online {
            (self, "0,0"@)
        } else {
            let (state, pair) = decimal_report(
                self.decimal_soc,
                self.battery_capacity_cache,
                self.decimal_soc_seed,
                self.decimal_soc_rate,
            );
            (
                AdapterView { decimal_soc: state, ..self },
                joined(seq![int_text(pair.0 as int), int_text(pair.1 as int)], ","@),
            )
        }
    }

    /// The size of the average current, or of the current one where no average is
    /// known.
    pub open spec fn average_current(self) -> i32 {
        as_clamped_i32(
            magnitude(
                if self.info.fg_avg_current != 0 {
                    self.info.fg_avg_current as int
                } else {
                    self.info.battery_current_now as int
                },
            ),
        )
    }

    pub open spec fn gauge_type(self) -> Seq<char> {
        if self.info.gauge_type.len() > 0 {
            self.info.gauge_type
        } else {
            best_battery_type_of(self.info)
        }
    }
}

/// What clients are told in numbers.
pub struct Answers {
    pub usb_online: i32,
    pub ac_online: i32,
    pub wireless_online: i32,
    pub pc_port_online: i32,
    pub battery_temp: i32,
    pub battery_current_now: i32,
    pub average_current: i32,
    pub rm_mah: i32,
    pub fcc_mah: i32,
    pub charge_counter_mah: i32,
    pub design_capacity_mah: i32,
    pub qmax_mah: i32,
    pub soh: i32,
    pub cycle_count: i32,
    pub adapter_power_w: i32,
}

impl AdapterView {
    /// What clients are told in numbers.
    pub open spec fn answers(self) -> Answers {
        Answers {
            usb_online: self.fast_charge_snapshot.usb_online,
            ac_online: self.fast_charge_snapshot.ac_online,
            wireless_online: self.fast_charge_snapshot.wireless_online,
            pc_port_online: self.info.pc_port_online,
            battery_temp: self.info.battery_temp,
            battery_current_now: self.info.battery_current_now,
            average_current: self.average_current(),
            rm_mah: capacity_mah(best_rm_of(self.info)),
            fcc_mah: best_fcc_mah_of(self.info),
            charge_counter_mah: capacity_mah(self.info.charge_counter),
            design_capacity_mah: capacity_mah(self.info.charge_full_design),
            qmax_mah: capacity_mah(self.info.fg_qmax),
            soh: best_soh_of(self.info, self.fractions.soh_ratio_percent),
            cycle_count: best_cycle_of(self.info),
            adapter_power_w: self.shown_power(),
        }
    }
}

impl Adapter {
    pub fn new() -> (r: Self)
        ensures
            r@ == new_adapter(),
            r@.well_formed(),
    {
        proof {
            new_adapter_agrees();
            new_adapter_controls_agree();
        }
        let info: ChargerInfo = ChargerInfo::default();
        let fractions: FractionalReadings = FractionalReadings::default();
        Adapter {
            charger_info_json: Self::build_charger_info_json(&info, &fractions),
            reverse_chg_info: "0,0,0".to_owned(),
            battery_balance_info: "0,0,0,0,0,0,0,0".to_owned(),
            usb_eye_diagram: "0,0,0,0,0,0,0,0,0,0".to_owned(),
            battery_auth_status: decimal(info.authentic),
            battery_type_cache: Self::best_battery_type(&info),
            fast_charge_snapshot: Self::fast_charge_snapshot_from_info(&info),
            battery_capacity_cache: info.battery_capacity,
            decimal_soc_seed: 0,
            decimal_soc_rate: 0,
            decimal_soc: DecimalSocState::default(),
            quick_mode_gain: "0,0".to_owned(),
            soh_debug_info: Self::build_soh_debug_info(&info, &fractions),
            bcc_anode_type: "0".to_owned(),
            eis_switch_status: "0".to_owned(),
            sili_ic_alg_cfg: "0".to_owned(),
            chg_up_limit_state: "0".to_owned(),
            chg_up_limit_value: "90".to_owned(),
            charge_limit_active: false,
            bypass_charge_status: "0".to_owned(),
            charge_control_active: false,
            charge_control_applied: Some(false),
            cooldown: "0".to_owned(),
            anti_expansion_dis: "0".to_owned(),
            battery_log_enabled: false,
            info,
            fractions,
        }
    }

    /// Publishes the result of a scan, with the fractional readings that belong
    /// to it and the readings of the decimal state of charge.
    pub fn publish(
        &mut self,
        info: ChargerInfo,
        fractions: FractionalReadings,
        decimal_seed: i32,
        decimal_rate: i32,
    )
        ensures
            final(self)@ == old(self)@.published(info@, fractions@, decimal_seed, decimal_rate),
            old(self)@.well_formed() ==> final(self)@.well_formed(),
    {
        self.charger_info_json = Self::build_charger_info_json(&info, &fractions);
        self.soh_debug_info = Self::build_soh_debug_info(&info, &fractions);
        self.battery_type_cache = Self::best_battery_type(&info);
        self.battery_auth_status = decimal(info.authentic);
        self.battery_balance_info = Self::build_balance_info(&info);
        self.fast_charge_snapshot = Self::fast_charge_snapshot_from_info(&info);
        self.battery_capacity_cache = info.battery_capacity;
        self.decimal_soc_seed = decimal_seed;
        self.decimal_soc_rate = decimal_rate;
        self.info = info;
        self.fractions = fractions;
    }

    pub fn get_stable_adapter_power_w(&self) -> (r: i32)
        ensures
            r == self@.shown_power(),
    {
        if !self.fast_charge_snapshot.online {
            return 0;
        }
        if self.fast_charge_snapshot.adapter_power_w > 0 {
            self.fast_charge_snapshot.adapter_power_w
        } else {
            self.info.adapter_power_w
        }
    }

    pub fn get_fast_charge_snapshot(&self) -> (r: FastChargeSnapshot)
        ensures
            r@ == self@.fast_charge_snapshot,
    {
        self.fast_charge_snapshot.clone()
    }

    fn decimal_soc_pair(&mut self, capacity: i32) -> (r: (i32, i32))
        ensures
            ({
                let (state, pair) = decimal_report(
                    old(self).decimal_soc,
                    capacity,
                    old(self).decimal_soc_seed,
                    old(self).decimal_soc_rate,
                );
                &&& r == pair
                &&& final(self)@ == AdapterView { decimal_soc: state, ..old(self)@ }
            }),
    {
        let mut state: DecimalSocState = self.decimal_soc;
        let pair: (i32, i32) = Self::synthetic_decimal_soc_pair(
            &mut state,
            capacity,
            self.decimal_soc_seed,
            self.decimal_soc_rate,
        );
        self.decimal_soc = state;
        pair
    }

    pub fn get_decimal_soc(&mut self) -> (r: String)
        ensures
            (final(self)@, r@) == old(self)@.decimal_reported(),
            old(self)@.well_formed() ==> final(self)@.well_formed(),
    {
        if !self.fast_charge_snapshot.online {
            return "0,0".to_owned();
        }
        let capacity: i32 = self.battery_capacity_cache;
        let (start, end): (i32, i32) = self.decimal_soc_pair(capacity);
        let mut report: Joiner = Joiner::new(",");
        report.number(start);
        report.number(end);
        assert(report.items() =~= seq![int_text(start as int), int_text(end as int)]);
        report.finish()
    }

    pub fn get_usb_online(&self) -> (r: i32)
        ensures
            r == self@.answers().usb_online,
            r == self@.fast_charge_snapshot.usb_online,
    {
        self.fast_charge_snapshot.usb_online
    }

    pub fn get_ac_online(&self) -> (r: i32)
        ensures
            r == self@.answers().ac_online,
            r == self@.fast_charge_snapshot.ac_online,
    {
        self.fast_charge_snapshot.ac_online
    }

    pub fn get_wireless_online(&self) -> (r: i32)
        ensures
            r == self@.answers().wireless_online,
            r == self@.fast_charge_snapshot.wireless_online,
    {
        self.fast_charge_snapshot.wireless_online
    }

    pub fn get_pc_port_online(&self) -> (r: i32)
        ensures
            r == self@.answers().pc_port_online,
            r == self@.info.pc_port_online,
    {
        self.info.pc_port_online
    }

    pub fn get_battery_temp(&self) -> (r: i32)
        ensures
            r == self@.answers().battery_temp,
            r == self@.info.battery_temp,
    {
        self.info.battery_temp
    }

    pub fn get_battery_current_now(&self) -> (r: i32)
        ensures
            r == self@.answers().battery_current_now,
            r == self@.info.battery_current_now,
    {
        self.info.battery_current_now
    }

    /// The size of the average current, or of the current one where no average
    /// is known.
    pub fn get_average_current(&self) -> (r: i32)
        ensures
            r == self@.answers().average_current,
            r == self@.average_current(),
            r == as_clamped_i32(
                magnitude(
                    if self@.info.fg_avg_current != 0 {
                        self@.info.fg_avg_current as int
                    } else {
                        self@.info.battery_current_now as int
                    },
                ),
            ),
            r >= 0,
    {
        if self.info.fg_avg_current != 0 {
            clamp_i64_to_i32(abs_i32_to_i64(self.info.fg_avg_current))
        } else {
            clamp_i64_to_i32(abs_i32_to_i64(self.info.battery_current_now))
        }
    }

    pub fn get_usb_status(&self) -> (r: String)
        ensures
            r@ == usb_report(self@.info),
    {
        Self::build_usb_status(&self.info)
    }

    pub fn get_battery_status(&self) -> (r: String)
        ensures
            r@ == battery_report(
                self@.info,
                self@.fast_charge_snapshot,
                self@.charge_control_active,
            ),
    {
        Self::build_battery_status(
            &self.info,
            &self.fast_charge_snapshot,
            self.charge_control_active,
        )
    }

    pub fn get_battery_rm(&self) -> (r: i32)
        ensures
            r == self@.answers().rm_mah,
            r == capacity_mah(best_rm_of(self@.info)),
    {
        Self::best_rm_mah(&self.info)
    }

    pub fn get_battery_fcc(&self) -> (r: i32)
        ensures
            r == self@.answers().fcc_mah,
            r == best_fcc_mah_of(self@.info),
    {
        Self::best_fcc_mah(&self.info)
    }

    pub fn get_battery_cc(&self) -> (r: i32)
        ensures
            r == self@.answers().charge_counter_mah,
            r == capacity_mah(self@.info.charge_counter),
    {
        Self::best_charge_counter_mah(&self.info)
    }

    pub fn get_battery_design_capacity(&self) -> (r: i32)
        ensures
            r == self@.answers().design_capacity_mah,
            r == capacity_mah(self@.info.charge_full_design),
    {
        Self::best_design_capacity_mah(&self.info)
    }

    pub fn get_battery_qmax(&self) -> (r: i32)
        ensures
            r == self@.answers().qmax_mah,
            r == capacity_mah(self@.info.fg_qmax),
    {
        Self::best_qmax_mah(&self.info)
    }

    pub fn get_battery_type(&self) -> (r: String)
        ensures
            r@ == best_battery_type_of(self@.info),
    {
        Self::best_battery_type(&self.info)
    }

    pub fn get_battery_gauge_type(&self) -> (r: String)
        ensures
            r@ == self@.gauge_type(),
    {
        if !self.info.gauge_type.as_str().is_empty() {
            self.info.gauge_type.clone()
        } else {
            Self::best_battery_type(&self.info)
        }
    }

    pub fn is_silicon_battery_now(&self) -> (r: bool)
        ensures
            r == names_silicon(unicode_lower(best_battery_type_of(self@.info))),
    {
        Self::is_silicon_battery(&self.info)
    }

    pub fn get_battery_soh(&self) -> (r: i32)
        ensures
            r == self@.answers().soh,
            r == best_soh_of(self@.info, self@.fractions.soh_ratio_percent),
            0 <= r <= 100,
    {
        Self::best_soh(&self.info, self.fractions.soh_ratio_percent)
    }

    pub fn get_battery_cycle_count(&self) -> (r: i32)
        ensures
            r == self@.answers().cycle_count,
            r == best_cycle_of(self@.info),
    {
        Self::best_cycle(&self.info)
    }

    pub fn get_adapter_power_w(&self) -> (r: i32)
        ensures
            r == self@.answers().adapter_power_w,
            r == self@.shown_power(),
    {
        self.get_stable_adapter_power_w()
    }

    pub fn get_battery_authenticate(&self) -> (r: i32)
        ensures
            r == 1,
    {
        1
    }

    pub fn get_battery_short_status(&self) -> (r: i32)
        ensures
            r == SHORT_CIRCUIT_HEALTHY,
            r == 1,
    {
        SHORT_CIRCUIT_HEALTHY
    }

    pub fn get_battery_short_ic_otp_status(&self) -> (r: i32)
        ensures
            r == SHORT_CIRCUIT_HEALTHY,
            r == 1,
    {
        SHORT_CIRCUIT_HEALTHY
    }

    pub fn get_battery_short_feature(&self) -> (r: i32)
        ensures
            r == 0,
    {
        0
    }
}

// ── laws ──

/// What is kept ready for clients agrees with the published state from the
/// start on.
pub proof fn new_adapter_agrees()
    ensures
        new_adapter().caches_agree(),
{
    let info = unscanned_info();
    reveal_with_fuel(joined, 9);
    reveal_strlit("0,0,0,0,0,0,0,0");
    reveal_strlit("0");
    reveal_strlit(",");
    assert(int_text(0) =~= "0"@);
    assert(balance_report(info) =~= "0,0,0,0,0,0,0,0"@);
}

/// What is kept ready for clients agrees with whatever is published.
pub proof fn publishing_agrees(
    adapter: AdapterView,
    info: ChargerInfoView,
    fractions: FractionalReadingsView,
    decimal_seed: i32,
    decimal_rate: i32,
)
    ensures
        adapter.published(info, fractions, decimal_seed, decimal_rate).caches_agree(),
{
}

/// Before the first scan no battery metric is made up.
pub proof fn unscanned_metrics_are_zero(ratio_percent: i32)
    ensures
        unscanned_info().battery_capacity == 0,
        unscanned_info().authentic == 1,
        best_soh_of(unscanned_info(), ratio_percent) == 0,
        best_fcc_mah_of(unscanned_info()) == 0,
{
}

/// The average current is shown without its sign, and the current one where no
/// average is known.
pub proof fn average_current_has_no_sign(adapter: AdapterView)
    ensures
        ({
            let average = adapter.info.fg_avg_current;
            let now = adapter.info.battery_current_now;
            let shown = adapter.average_current();
            &&& average > 0 ==> shown == average
            &&& i32::MIN < average < 0 ==> shown == -average
            &&& average == 0 && now >= 0 ==> shown == now
            &&& average == 0 && i32::MIN < now < 0 ==> shown == -now
            &&& shown >= 0
        }),
{
}

/// Once a state is published, clients are told its numbers: the connections as they
/// are, the charges in mAh, and the power only with a power source.
pub proof fn answers_follow_the_published_state(
    adapter: AdapterView,
    info: ChargerInfoView,
    fractions: FractionalReadingsView,
    decimal_seed: i32,
    decimal_rate: i32,
)
    ensures
        ({
            let told = adapter.published(info, fractions, decimal_seed, decimal_rate).answers();
            let online = info.usb_online != 0 || info.ac_online != 0 || info.wireless_online != 0;
            &&& told.usb_online == info.usb_online
            &&& told.ac_online == info.ac_online
            &&& told.wireless_online == info.wireless_online
            &&& told.pc_port_online == info.pc_port_online
            &&& told.battery_temp == info.battery_temp
            &&& told.battery_current_now == info.battery_current_now
            &&& info.fg_avg_current > 0 ==> told.average_current == info.fg_avg_current
            &&& 0 < info.fg_rm <= 100_000 ==> told.rm_mah == info.fg_rm
            &&& 0 < info.fg_fcc <= 100_000 ==> told.fcc_mah == info.fg_fcc
            &&& 0 < info.charge_counter <= 100_000 ==> told.charge_counter_mah
                == info.charge_counter
            &&& 0 < info.charge_full_design <= 100_000 ==> told.design_capacity_mah
                == info.charge_full_design
            &&& 0 < info.fg_qmax <= 100_000 ==> told.qmax_mah == info.fg_qmax
            &&& 0 < info.fg_soh <= 100 ==> told.soh == info.fg_soh
            &&& info.fg_cycle > 0 ==> told.cycle_count == info.fg_cycle
            &&& online ==> told.adapter_power_w == info.adapter_power_w
            &&& !online ==> told.adapter_power_w == 0
        }),
{
}

/// Charges in µAh are told in mAh, rounded down, and unknown ones as 0.
pub proof fn charges_are_told_in_mah(adapter: AdapterView)
    ensures
        ({
            let told = adapter.answers();
            let info = adapter.info;
            &&& info.fg_rm > 100_000 ==> told.rm_mah * 1_000 <= info.fg_rm < (told.rm_mah + 1)
                * 1_000
            &&& info.fg_fcc > 100_000 ==> told.fcc_mah * 1_000 <= info.fg_fcc < (told.fcc_mah + 1)
                * 1_000
            &&& info.charge_counter > 100_000 ==> told.charge_counter_mah * 1_000
                <= info.charge_counter < (told.charge_counter_mah + 1) * 1_000
            &&& info.charge_full_design > 100_000 ==> told.design_capacity_mah * 1_000
                <= info.charge_full_design < (told.design_capacity_mah + 1) * 1_000
            &&& info.fg_qmax > 100_000 ==> told.qmax_mah * 1_000 <= info.fg_qmax < (told.qmax_mah
                + 1) * 1_000
            &&& info.charge_counter <= 0 ==> told.charge_counter_mah == 0
            &&& info.charge_full_design <= 0 ==> told.design_capacity_mah == 0
            &&& info.fg_qmax <= 0 ==> told.qmax_mah == 0
        }),
{
}

/// Before the first scan every number is 0, no charger is there, and the limit is
/// off at 90 percent, with nothing held back.
pub proof fn new_adapter_knows_nothing()
    ensures
        ({
            let adapter = new_adapter();
            let told = adapter.answers();
            &&& told.usb_online == 0 && told.ac_online == 0 && told.wireless_online == 0
            &&& told.pc_port_online == 0 && told.battery_temp == 0 && told.battery_current_now == 0
            &&& told.average_current == 0 && told.rm_mah == 0 && told.fcc_mah == 0
            &&& told.charge_counter_mah == 0 && told.design_capacity_mah == 0 && told.qmax_mah == 0
            &&& told.soh == 0 && told.cycle_count == 0 && told.adapter_power_w == 0
            &&& !adapter.fast_charge_snapshot.online
            &&& adapter.chg_up_limit_state == "0"@ && adapter.chg_up_limit_value == "90"@
            &&& adapter.bypass_charge_status == "0"@
            &&& !adapter.charge_limit_active && !adapter.charge_control_active
            &&& adapter.info.battery_status == "Unknown"@
            &&& adapter.battery_type_cache == "unknown"@ && adapter.battery_auth_status == int_text(
                1,
            )
        }),
{
}

} // verus!
