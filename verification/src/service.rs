//! What the service answers from the adapter state, and what its requests
//! change.

use crate::adapter::{Adapter, AdapterView};
use crate::battery::{best_battery_type_of, best_cycle_of, best_rm_of, names_silicon};
use crate::charge_limit::{bypass_on, limit_state_payload};
use crate::classify::fast_inputs_of;
use crate::control::{actions_view, switch, switch_text, ControlAction, ControlActionView};
use crate::info::ChargerInfoView;
use crate::report::FractionalReadingsView;
use crate::scan::{fast_type_text_reads_back, nodes_done, on_charger, scan_start, ScanStage};
use crate::scan_results::{data_port_scan_shows_no_fast_charge, offline_scan_clears_session};
use crate::scan_runs::{every_completed_scan_agrees, run_with, ScanAnswer};
use crate::snapshot::FastChargeSnapshot;
use crate::text::{decimal, int_text, is_space, joined, text_eq, trimmed, unicode_lower, Joiner};
use crate::units::capacity_mah;
use crate::INTERFACE_VERSION;
use vstd::prelude::*;

verus! {

/// The words that switch the battery log on.
pub open spec fn log_switches_on(value: Seq<char>) -> bool {
    ||| value == "1"@
    ||| value == "true"@
    ||| value == "TRUE"@
    ||| value == "True"@
    ||| value == "enable"@
    ||| value == "enabled"@
}

/// The text that a smart cool-down request leaves.
pub open spec fn cool_down_text(
    cool_down: i32,
    normal_cool_down: i32,
    pkg_name: Seq<char>,
) -> Seq<char> {
    joined(seq![int_text(cool_down as int), int_text(normal_cool_down as int), pkg_name], ","@)
}

impl AdapterView {
    /// The gauge information, or the state-of-health report where the gauge gives
    /// none.
    pub open spec fn gauge_answer(self) -> Seq<char> {
        if self.info.gauge_info.len() == 0 {
            self.soh_debug_info
        } else {
            self.info.gauge_info
        }
    }

    /// The adapter power, where power is shown and `wanted` holds.
    pub open spec fn power_if(self, wanted: bool) -> i32 {
        if self.fast_charge_snapshot.shows_power() && wanted {
            self.shown_power()
        } else {
            0
        }
    }

    /// The power of PPS charging.
    pub open spec fn pps_power(self) -> i32 {
        self.power_if(self.fast_charge_snapshot.pps_active())
    }

    /// The power of wireless charging.
    pub open spec fn wireless_power(self) -> i32 {
        self.power_if(self.fast_charge_snapshot.wireless_online != 0)
    }

    pub open spec fn cooled_down(self, cooldown: Seq<char>) -> AdapterView {
        AdapterView { cooldown, ..self }
    }

    pub open spec fn log_pushed(self, value: Seq<char>) -> AdapterView {
        AdapterView { battery_log_enabled: log_switches_on(value), ..self }
    }

    pub open spec fn eye_diagram_set(self, usb_eye_diagram: Seq<char>) -> AdapterView {
        AdapterView { usb_eye_diagram, ..self }
    }

    /// The answer to a configuration query.
    pub open spec fn config_value(self, flag: i32, extra: Seq<char>) -> Seq<char> {
        let snapshot = self.fast_charge_snapshot;
        if flag == 0 {
            int_text(snapshot.fast_type as int)
        } else if 1 <= flag <= 3 {
            int_text(self.power_if(true) as int)
        } else if flag == 4 {
            int_text(self.power_if(snapshot.pps_active() || snapshot.cp_online != 0) as int)
        } else if flag == 5 {
            self.chg_up_limit_value
        } else if flag == 6 {
            switch_text(snapshot.fast_charge() || snapshot.svooc_active())
        } else if flag == 14 {
            self.chg_up_limit_state
        } else if flag == 20 {
            int_text(best_cycle_of(self.info) as int)
        } else if flag == 21 {
            switch_text(names_silicon(unicode_lower(best_battery_type_of(self.info))))
        } else if flag == 23 {
            self.gauge_type()
        } else if flag == 24 || flag == 25 {
            self.bypass_charge_status
        } else if flag == 30 {
            if extra == "Update"@ {
                self.charger_info_json
            } else {
                "0"@
            }
        } else if flag == 31 {
            "-1"@
        } else if flag == 33 {
            int_text(capacity_mah(best_rm_of(self.info)) as int)
        } else if flag == 37 {
            self.reverse_chg_info
        } else if flag == 40 {
            Seq::empty()
        } else {
            "0"@
        }
    }

    /// The adapter after a configuration request.
    pub open spec fn configured(self, flag: i32, extra: Seq<char>) -> AdapterView {
        if flag == 5 {
            self.limit_value_set(extra)
        } else if flag == 14 {
            self.limit_state_set(extra)
        } else if flag == 19 {
            AdapterView { anti_expansion_dis: extra, ..self }
        } else if flag == 25 {
            self.bypass_set(extra)
        } else if flag == 36 {
            AdapterView { reverse_chg_info: extra, ..self }
        } else {
            self
        }
    }

    /// What is done for a configuration request.
    pub open spec fn config_actions(self, flag: i32, extra: Seq<char>) -> Seq<ControlActionView> {
        if flag == 5 {
            self.limit_value_actions(extra)
        } else if flag == 14 {
            self.limit_state_actions(extra)
        } else if flag == 25 {
            self.bypass_actions(extra)
        } else {
            seq![]
        }
    }
}

impl Adapter {
    fn power_when(&self, wanted: bool) -> (r: i32)
        ensures
            r == self@.power_if(wanted),
    {
        if self.fast_charge_snapshot.should_show_power() && wanted {
            self.get_adapter_power_w()
        } else {
            0
        }
    }

    pub fn get_chg_config_value(&self, flag: i32, extra: &str) -> (r: String)
        ensures
            r@ == self@.config_value(flag, extra@),
    {
        let snapshot: &FastChargeSnapshot = &self.fast_charge_snapshot;
        match flag {
            0 => decimal(snapshot.fast_type),
            1 | 2 | 3 => decimal(self.power_when(true)),
            4 => {
                let direct: bool = snapshot.is_pps_active() || snapshot.cp_online != 0;
                decimal(self.power_when(direct))
            },
            5 => self.get_charge_limit_value(),
            6 => switch(snapshot.is_fast_charge() || snapshot.is_svooc_active()),
            14 => self.get_charge_limit_state(),
            20 => decimal(self.get_battery_cycle_count()),
            21 => switch(self.is_silicon_battery_now()),
            23 => self.get_battery_gauge_type(),
            24 | 25 => self.get_bypass_charge_status(),
            30 => if text_eq(extra, "Update") {
                self.charger_info_json.clone()
            } else {
                "0".to_owned()
            },
            31 => "-1".to_owned(),
            33 => decimal(self.get_battery_rm()),
            37 => self.reverse_chg_info.clone(),
            40 => String::new(),
            _ => "0".to_owned(),
        }
    }

    pub fn set_chg_config(&mut self, flag: i32, extra: &str) -> (r: Vec<ControlAction>)
        ensures
            final(self)@ == old(self)@.configured(flag, extra@),
            actions_view(r@) == old(self)@.config_actions(flag, extra@),
            old(self)@.well_formed() ==> final(self)@.well_formed(),
    {
        match flag {
            5 => self.set_charge_limit_value(extra),
            14 => self.set_charge_limit_state(extra),
            19 => {
                self.anti_expansion_dis = extra.to_owned();
                Vec::new()
            },
            25 => self.set_bypass_charge_status(extra),
            36 => {
                self.reverse_chg_info = extra.to_owned();
                Vec::new()
            },
            _ => Vec::new(),
        }
    }

    /// Unlike [`Adapter::bool_like`], this knows no `on` and ignores no white
    /// space.
    pub fn set_bool_like(value: &str) -> (r: bool)
        ensures
            r == log_switches_on(value@),
    {
        text_eq(value, "1") || text_eq(value, "true") || text_eq(value, "TRUE") || text_eq(
            value,
            "True",
        ) || text_eq(value, "enable") || text_eq(value, "enabled")
    }

    pub fn get_batt_pps_chg_power(&self) -> (r: i32)
        ensures
            r == self@.power_if(self@.fast_charge_snapshot.pps_active()),
            r == self@.pps_power(),
    {
        self.power_when(self.fast_charge_snapshot.is_pps_active())
    }

    pub fn get_wireless_adapter_power(&self) -> (r: i32)
        ensures
            r == self@.power_if(self@.fast_charge_snapshot.wireless_online != 0),
            r == self@.wireless_power(),
    {
        self.power_when(self.fast_charge_snapshot.wireless_online != 0)
    }

    /// The gauge information, or the state-of-health report where the gauge
    /// gives none.
    pub fn get_batt_gauge_info(&self) -> (r: String)
        ensures
            r@ == (if self@.info.gauge_info.len() == 0 {
                self@.soh_debug_info
            } else {
                self@.info.gauge_info
            }),
            r@ == self@.gauge_answer(),
    {
        if self.info.gauge_info.as_str().is_empty() {
            self.soh_debug_info.clone()
        } else {
            self.info.gauge_info.clone()
        }
    }

    pub fn get_interface_version(&self) -> (r: i32)
        ensures
            r == INTERFACE_VERSION,
            r == 11,
    {
        INTERFACE_VERSION
    }

    pub fn set_charger_cool_down(&mut self, data: &str)
        ensures
            final(self)@ == (AdapterView { cooldown: data@, ..old(self)@ }),
            final(self)@ == old(self)@.cooled_down(data@),
            old(self)@.well_formed() ==> final(self)@.well_formed(),
    {
        self.cooldown = data.to_owned();
    }

    pub fn set_smart_cool_down(&mut self, cool_down: i32, normal_cool_down: i32, pkg_name: &str)
        ensures
            final(self)@ == (AdapterView {
                cooldown: joined(
                    seq![int_text(cool_down as int), int_text(normal_cool_down as int), pkg_name@],
                    ","@,
                ),
                ..old(self)@
            }),
            final(self)@ == old(self)@.cooled_down(
                cool_down_text(cool_down, normal_cool_down, pkg_name@),
            ),
            old(self)@.well_formed() ==> final(self)@.well_formed(),
    {
        let mut parts: Joiner = Joiner::new(",");
        parts.number(cool_down);
        parts.number(normal_cool_down);
        parts.item(pkg_name);
        assert(parts.items() =~= seq![
            int_text(cool_down as int),
            int_text(normal_cool_down as int),
            pkg_name@,
        ]);
        self.cooldown = parts.finish();
    }

    pub fn set_battery_log_push(&mut self, data: &str)
        ensures
            final(self)@ == (AdapterView {
                battery_log_enabled: log_switches_on(data@),
                ..old(self)@
            }),
            final(self)@ == old(self)@.log_pushed(data@),
            old(self)@.well_formed() ==> final(self)@.well_formed(),
    {
        self.battery_log_enabled = Self::set_bool_like(data);
    }

    pub fn set_usb_eye_diagram(&mut self, eye_diagram: &str)
        ensures
            final(self)@ == (AdapterView { usb_eye_diagram: eye_diagram@, ..old(self)@ }),
            final(self)@ == old(self)@.eye_diagram_set(eye_diagram@),
            old(self)@.well_formed() ==> final(self)@.well_formed(),
    {
        self.usb_eye_diagram = eye_diagram.to_owned();
    }
}

// ── laws ──

/// Without a power source every power query answers 0, and the fast-charge
/// query too.
pub proof fn offline_answers_are_zero(adapter: AdapterView, flag: i32, extra: Seq<char>)
    requires
        !adapter.fast_charge_snapshot.online,
        1 <= flag <= 4 || flag == 6,
    ensures
        adapter.config_value(flag, extra) == "0"@,
{
    reveal_strlit("0");
    assert(int_text(0) =~= "0"@);
}

/// On a data port every power query answers 0, and the fast-charge query too.
pub proof fn data_port_answers_are_zero(adapter: AdapterView, flag: i32, extra: Seq<char>)
    requires
        adapter.fast_charge_snapshot.on_data_port(),
        1 <= flag <= 4 || flag == 6,
    ensures
        adapter.config_value(flag, extra) == "0"@,
{
    reveal_strlit("0");
    assert(int_text(0) =~= "0"@);
}

/// What a request sets, the query for it answers.
pub proof fn requests_read_back(adapter: AdapterView, value: Seq<char>, extra: Seq<char>)
    ensures
        adapter.configured(5, value).config_value(5, extra) == AdapterView::limit_text(value),
        adapter.configured(14, value).config_value(14, extra) == int_text(
            limit_state_payload(value).0 as int,
        ),
        adapter.configured(25, value).config_value(24, extra) == switch_text(bypass_on(value)),
        adapter.configured(25, value).config_value(25, extra) == switch_text(bypass_on(value)),
        adapter.configured(36, value).config_value(37, extra) == value,
{
}

/// A request of any other kind changes nothing and writes nothing.
pub proof fn unknown_requests_change_nothing(adapter: AdapterView, flag: i32, extra: Seq<char>)
    requires
        flag != 5 && flag != 14 && flag != 19 && flag != 25 && flag != 36,
    ensures
        adapter.configured(flag, extra) == adapter,
        adapter.config_actions(flag, extra) == Seq::<ControlActionView>::empty(),
{
}

/// Every configuration request keeps the controls in agreement, and what is
/// kept ready for clients.
pub proof fn requests_keep_agreement(adapter: AdapterView, flag: i32, extra: Seq<char>)
    requires
        adapter.control_agrees(),
        adapter.caches_agree(),
    ensures
        adapter.configured(flag, extra).control_agrees(),
        adapter.configured(flag, extra).caches_agree(),
{
}

/// Once a scan without a power source is published, the fast-charge type and
/// every power query are answered with 0, and so is the fast-charge query.
pub proof fn published_offline_scan_answers_zero(
    adapter: AdapterView,
    info: ChargerInfoView,
    fractions: FractionalReadingsView,
    decimal_seed: i32,
    decimal_rate: i32,
    flag: i32,
    extra: Seq<char>,
)
    requires
        !info.online(),
        0 <= flag <= 4 || flag == 6,
    ensures
        adapter.published(
            nodes_done(info).info,
            fractions,
            decimal_seed,
            decimal_rate,
        ).config_value(flag, extra) == "0"@,
{
    offline_scan_clears_session(info);
    let after = adapter.published(nodes_done(info).info, fractions, decimal_seed, decimal_rate);
    reveal_strlit("0");
    assert(int_text(0) =~= "0"@);
    if flag != 0 {
        offline_answers_are_zero(after, flag, extra);
    }
}

/// Once a scan on a data port is published, the fast-charge type and every power
/// query are answered with 0, and so is the fast-charge query, whatever evidence
/// of fast charging the nodes hold.
pub proof fn published_data_port_scan_answers_zero(
    adapter: AdapterView,
    info: ChargerInfoView,
    fractions: FractionalReadingsView,
    decimal_seed: i32,
    decimal_rate: i32,
    flag: i32,
    extra: Seq<char>,
)
    requires
        info.online(),
        fast_inputs_of(info).on_data_port(),
        0 <= flag <= 4 || flag == 6,
    ensures
        adapter.published(
            nodes_done(info).info,
            fractions,
            decimal_seed,
            decimal_rate,
        ).config_value(flag, extra) == "0"@,
{
    data_port_scan_shows_no_fast_charge(info);
    let after = adapter.published(nodes_done(info).info, fractions, decimal_seed, decimal_rate);
    reveal_strlit("0");
    assert(int_text(0) =~= "0"@);
    if flag != 0 {
        data_port_answers_are_zero(after, flag, extra);
    }
}

/// Once any completed scan is published, whatever its nodes read on the way,
/// these queries are answered with 0 unless it found a charger that is no data
/// port.
pub proof fn every_published_scan_shows_chargers_only(
    adapter: AdapterView,
    known: ChargerInfoView,
    answers: Seq<ScanAnswer>,
    fractions: FractionalReadingsView,
    decimal_seed: i32,
    decimal_rate: i32,
    flag: i32,
    extra: Seq<char>,
)
    requires
        run_with(scan_start(known), answers).stage == ScanStage::Finished(true),
        !on_charger(run_with(scan_start(known), answers).info),
        0 <= flag <= 4 || flag == 6,
    ensures
        adapter.published(
            run_with(scan_start(known), answers).info,
            fractions,
            decimal_seed,
            decimal_rate,
        ).config_value(flag, extra) == "0"@,
{
    let info = run_with(scan_start(known), answers).info;
    let after = adapter.published(info, fractions, decimal_seed, decimal_rate);
    every_completed_scan_agrees(known, answers);
    fast_type_text_reads_back(0);
    reveal_strlit("0");
    assert(int_text(0) =~= "0"@);
    if flag != 0 {
        if !info.online() {
            offline_answers_are_zero(after, flag, extra);
        } else {
            data_port_answers_are_zero(after, flag, extra);
        }
    }
}

/// The power that is shown is that of the snapshot, or of the state where the
/// snapshot has none, and 0 without a power source.
pub proof fn shown_power_is_that_of_the_charger(adapter: AdapterView)
    ensures
        ({
            let snapshot = adapter.fast_charge_snapshot;
            &&& !snapshot.online ==> adapter.shown_power() == 0
            &&& snapshot.online && snapshot.adapter_power_w > 0 ==> adapter.shown_power()
                == snapshot.adapter_power_w
            &&& snapshot.online && snapshot.adapter_power_w <= 0 ==> adapter.shown_power()
                == adapter.info.adapter_power_w
        }),
{
}

/// The power queries answer with the power of a charger of the fourth quick-charge
/// type, and with 0 for every other: three of them for any such charger, one only
/// where it charges by PPS or by a charge pump.
pub proof fn power_queries_answer(adapter: AdapterView, extra: Seq<char>, wanted: bool)
    ensures
        ({
            let snapshot = adapter.fast_charge_snapshot;
            let fourth = trimmed(snapshot.quick_charge_type) == "4"@ && !snapshot.on_data_port();
            let direct = snapshot.pps_active() || snapshot.cp_online != 0;
            let power = int_text(adapter.shown_power() as int);
            &&& fourth ==> adapter.config_value(1, extra) == power && adapter.config_value(2, extra)
                == power && adapter.config_value(3, extra) == power
            &&& !fourth ==> adapter.config_value(1, extra) == "0"@ && adapter.config_value(2, extra)
                == "0"@ && adapter.config_value(3, extra) == "0"@
            &&& fourth && direct ==> adapter.config_value(4, extra) == power
            &&& !(fourth && direct) ==> adapter.config_value(4, extra) == "0"@
            &&& adapter.power_if(wanted) == if fourth && wanted {
                adapter.shown_power()
            } else {
                0
            }
        }),
{
    reveal_strlit("0");
    assert(int_text(0) =~= "0"@);
}

/// The other queries answer each from its own source, and an unknown one with 0.
pub proof fn queries_answer(adapter: AdapterView, flag: i32, extra: Seq<char>)
    ensures
        ({
            let snapshot = adapter.fast_charge_snapshot;
            let silicon = names_silicon(unicode_lower(best_battery_type_of(adapter.info)));
            let fast = snapshot.fast_charge() || snapshot.svooc_active();
            let answer = adapter.config_value(flag, extra);
            &&& flag == 0 ==> answer == int_text(snapshot.fast_type as int)
            &&& flag == 5 ==> answer == adapter.chg_up_limit_value
            &&& flag == 6 && fast ==> answer == "1"@
            &&& flag == 6 && !fast ==> answer == "0"@
            &&& flag == 14 ==> answer == adapter.chg_up_limit_state
            &&& flag == 20 ==> answer == int_text(best_cycle_of(adapter.info) as int)
            &&& flag == 21 && silicon ==> answer == "1"@
            &&& flag == 21 && !silicon ==> answer == "0"@
            &&& flag == 23 && adapter.info.gauge_type.len() > 0 ==> answer
                == adapter.info.gauge_type
            &&& flag == 23 && adapter.info.gauge_type.len() == 0 ==> answer == best_battery_type_of(
                adapter.info,
            )
            &&& flag == 24 || flag == 25 ==> answer == adapter.bypass_charge_status
            &&& flag == 30 && extra == "Update"@ ==> answer == adapter.charger_info_json
            &&& flag == 30 && extra != "Update"@ ==> answer == "0"@
            &&& flag == 31 ==> answer == "-1"@
            &&& flag == 33 ==> answer == int_text(capacity_mah(best_rm_of(adapter.info)) as int)
            &&& flag == 37 ==> answer == adapter.reverse_chg_info
            &&& flag == 40 ==> answer.len() == 0
            &&& flag < 0 || 7 <= flag <= 13 || 15 <= flag <= 19 || flag == 22 || 26 <= flag <= 29
                || flag == 32 || 34 <= flag <= 36 || flag == 38 || flag == 39 || flag > 40
                ==> answer == "0"@
            &&& flag != 30 ==> answer == adapter.config_value(flag, "Update"@)
        }),
{
}

/// Of the requests each changes its own control: the limit, its switch, the
/// anti-expansion text, bypass charging and the reverse-charging text.
pub proof fn requests_change_their_control(adapter: AdapterView, extra: Seq<char>)
    ensures
        adapter.configured(5, extra) == adapter.limit_value_set(extra),
        adapter.config_actions(5, extra) == adapter.limit_value_actions(extra),
        adapter.configured(14, extra) == adapter.limit_state_set(extra),
        adapter.config_actions(14, extra) == adapter.limit_state_actions(extra),
        adapter.configured(25, extra) == adapter.bypass_set(extra),
        adapter.config_actions(25, extra) == adapter.bypass_actions(extra),
        adapter.configured(19, extra) == (AdapterView { anti_expansion_dis: extra, ..adapter }),
        adapter.config_actions(19, extra).len() == 0,
        adapter.configured(36, extra) == (AdapterView { reverse_chg_info: extra, ..adapter }),
        adapter.config_actions(36, extra).len() == 0,
{
}

/// The battery log is switched on by six words as they stand, and off by any other
/// text: white space around such a word makes it another.
pub proof fn log_words(value: Seq<char>)
    ensures
        value == "1"@ || value == "true"@ || value == "True"@ || value == "TRUE"@ || value
            == "enable"@ || value == "enabled"@ <==> log_switches_on(value),
        !log_switches_on("on"@),
        log_switches_on(value) ==> !is_space(value[0]) && !is_space(value[value.len() - 1]),
{
    reveal_strlit("1");
    reveal_strlit("on");
    reveal_strlit("true");
    reveal_strlit("True");
    reveal_strlit("TRUE");
    reveal_strlit("enable");
    reveal_strlit("enabled");
    assert("on"@.len() == 2 && "1"@.len() == 1 && "true"@.len() == 4 && "True"@.len() == 4
        && "TRUE"@.len() == 4 && "enable"@.len() == 6 && "enabled"@.len() == 7);
}

/// A smart cool-down request is kept as its two levels and its package, in this
/// order, with commas between them.
pub proof fn cool_down_request_is_kept(cool_down: i32, normal_cool_down: i32, pkg_name: Seq<char>)
    ensures
        cool_down_text(cool_down, normal_cool_down, pkg_name) == int_text(cool_down as int) + ","@
            + int_text(normal_cool_down as int) + ","@ + pkg_name,
{
    reveal_with_fuel(joined, 3);
    let parts = seq![int_text(cool_down as int), int_text(normal_cool_down as int), pkg_name];
    assert(parts.drop_last() =~= seq![
        int_text(cool_down as int),
        int_text(normal_cool_down as int),
    ]);
    assert(parts.drop_last().drop_last() =~= seq![int_text(cool_down as int)]);
}

/// The gauge query answers with the gauge's own information where it gives any, and
/// with the health report otherwise.
pub proof fn gauge_answers_for_itself(adapter: AdapterView)
    ensures
        adapter.info.gauge_info.len() > 0 ==> adapter.gauge_answer() == adapter.info.gauge_info,
        adapter.info.gauge_info.len() == 0 ==> adapter.gauge_answer() == adapter.soh_debug_info,
{
}

/// The PPS power is told of PPS charging and the wireless power of a wireless
/// charger, each of the fourth quick-charge type, and 0 of anything else.
pub proof fn power_is_told_of_its_charger(adapter: AdapterView)
    ensures
        ({
            let snapshot = adapter.fast_charge_snapshot;
            let fourth = trimmed(snapshot.quick_charge_type) == "4"@ && !snapshot.on_data_port();
            let wireless = snapshot.wireless_online != 0;
            let pps = snapshot.pps_active();
            &&& fourth && pps ==> adapter.pps_power() == adapter.shown_power()
            &&& !fourth || !pps ==> adapter.pps_power() == 0
            &&& fourth && wireless ==> adapter.wireless_power() == adapter.shown_power()
            &&& !fourth || !wireless ==> adapter.wireless_power() == 0
        }),
{
}

/// What clients leave is kept as it is, and the last of it stands; nothing else
/// changes by it.
pub proof fn kept_texts_are_kept(adapter: AdapterView, first: Seq<char>, second: Seq<char>)
    ensures
        adapter.cooled_down(first).cooldown == first,
        adapter.cooled_down(first).cooled_down(second) == adapter.cooled_down(second),
        adapter.cooled_down(first).cooled_down(adapter.cooldown) == adapter,
        adapter.eye_diagram_set(first).usb_eye_diagram == first,
        adapter.eye_diagram_set(first).eye_diagram_set(adapter.usb_eye_diagram) == adapter,
        adapter.log_pushed("1"@).battery_log_enabled,
        adapter.log_pushed(first).log_pushed(second) == adapter.log_pushed(second),
        adapter.log_pushed(first).battery_log_enabled == adapter.battery_log_enabled
            ==> adapter.log_pushed(first) == adapter,
{
}

} // verus!
