//! Charge control: holding charging back for the charge limit and for bypass
//! charging, and what is written to the control nodes for it.

use crate::adapter::{new_adapter, Adapter, AdapterView};
use crate::charge_limit::{
    bypass_on, latch_holds_at_limit, latch_settles, latched, limit_control_payload,
    limit_state_payload, restricted_charge_control_value, restricted_level,
    CHARGE_LIMIT_HYSTERESIS_PERCENT,
};
use crate::info::ChargerInfoView;
use crate::nodes::WriteNode;
use crate::report::FractionalReadingsView;
use crate::text::{
    as_i32, decimal, decimal_text_is_trimmed, decimal_text_reads_back, first_int, first_keyed,
    int_text, key_and_value, keyed_int, parse_first_int, parse_i32, pieces, text_eq, text_pieces,
    trim, trimmed, Separator,
};
use vstd::prelude::*;

verus! {

/// The charge-control level that restricts nothing.
pub const CHARGE_CONTROL_LIMIT_RELEASED: &'static str = "0";

/// A value to write to a control node.
#[derive(Debug, PartialEq, Eq)]
pub struct NodeWrite {
    pub node: WriteNode,
    pub value: String,
}

/// A [`NodeWrite`] with its text as a character sequence.
#[verifier::ext_equal]
pub struct NodeWriteView {
    pub node: WriteNode,
    pub value: Seq<char>,
}

impl View for NodeWrite {
    type V = NodeWriteView;

    open spec fn view(&self) -> NodeWriteView {
        NodeWriteView { node: self.node, value: self.value@ }
    }
}

/// What is to be done for a change of the controls.
#[derive(Debug, PartialEq, Eq)]
pub enum ControlAction {
    /// A value is written to a node.
    Write(NodeWrite),
    /// The writes of [`Adapter::apply_charge_control_limit`] are made.
    Apply(bool),
}

/// A [`ControlAction`] with its text as a character sequence.
#[verifier::ext_equal]
pub enum ControlActionView {
    Write(NodeWriteView),
    Apply(bool),
}

impl View for ControlAction {
    type V = ControlActionView;

    open spec fn view(&self) -> ControlActionView {
        match self {
            ControlAction::Write(write) => ControlActionView::Write(write@),
            ControlAction::Apply(restrict) => ControlActionView::Apply(*restrict),
        }
    }
}

pub open spec fn actions_view(actions: Seq<ControlAction>) -> Seq<ControlActionView> {
    actions.map_values(|action: ControlAction| action@)
}

pub open spec fn writes_view(writes: Seq<NodeWrite>) -> Seq<NodeWriteView> {
    writes.map_values(|write: NodeWrite| write@)
}

pub open spec fn write_of(node: WriteNode, value: Seq<char>) -> ControlActionView {
    ControlActionView::Write(NodeWriteView { node, value })
}

pub open spec fn switch_text(on: bool) -> Seq<char> {
    if on {
        "1"@
    } else {
        "0"@
    }
}

/// The writes that restrict charging to a level below `max_value`, or release
/// it.
pub open spec fn control_writes(restrict: bool, max_value: i32) -> Seq<NodeWriteView> {
    seq![
        NodeWriteView {
            node: WriteNode::ChargeControlLimit,
            value: if restrict {
                int_text(restricted_level(max_value) as int)
            } else {
                CHARGE_CONTROL_LIMIT_RELEASED@
            },
        },
        NodeWriteView { node: WriteNode::CoolMode, value: switch_text(restrict) },
        NodeWriteView { node: WriteNode::CoolDown, value: switch_text(restrict) },
    ]
}

impl AdapterView {
    pub open spec fn limit_enabled(self) -> bool {
        trimmed(self.chg_up_limit_state) == "1"@
    }

    pub open spec fn limit_target(self) -> Option<i32> {
        as_i32(trimmed(self.chg_up_limit_value))
    }

    /// Charging is to be held back.
    pub open spec fn wants_control(self) -> bool {
        bypass_on(self.bypass_charge_status) || self.charge_limit_active
    }

    /// The adapter once the limit is held against the battery.
    pub open spec fn latch_updated(self) -> AdapterView {
        AdapterView {
            charge_limit_active: latched(
                self.charge_limit_active,
                self.limit_enabled(),
                self.info.battery_capacity,
                self.limit_target(),
            ),
            ..self
        }
    }

    /// The adapter once charging is held back or released.
    pub open spec fn control_set(self, restrict: bool) -> AdapterView {
        AdapterView {
            charge_control_active: restrict,
            charge_control_applied: Some(restrict),
            ..self
        }
    }

    /// What is done to hold charging back or to release it: nothing where the
    /// nodes were told so already.
    pub open spec fn control_actions(self, restrict: bool) -> Seq<ControlActionView> {
        if self.charge_control_applied == Some(restrict) {
            seq![]
        } else {
            seq![ControlActionView::Apply(restrict)]
        }
    }

    pub open spec fn enforced(self) -> AdapterView {
        let latched = self.latch_updated();
        latched.control_set(latched.wants_control())
    }

    pub open spec fn enforce_actions(self) -> Seq<ControlActionView> {
        let latched = self.latch_updated();
        latched.control_actions(latched.wants_control())
    }

    /// The limit text of a limit request: its limit, or its first integer, or
    /// all of it.
    pub open spec fn limit_text(value: Seq<char>) -> Seq<char> {
        match limit_control_payload(value).1 {
            Some(limit) => int_text(limit as int),
            None => match first_int(value) {
                Some(limit) => int_text(limit as int),
                None => value,
            },
        }
    }

    /// The adapter with the limit of a limit request, before charging is held
    /// back or released for it.
    pub open spec fn with_limit_value(self, value: Seq<char>) -> AdapterView {
        let stop = limit_control_payload(value).0;
        let limited = AdapterView {
            chg_up_limit_value: Self::limit_text(value),
            charge_control_applied: None,
            ..self
        };
        let holds = limited.limit_enabled() && latched(
            true,
            true,
            limited.info.battery_capacity,
            limited.limit_target(),
        );
        AdapterView {
            charge_limit_active: if stop != 0 {
                true
            } else {
                holds && limited.charge_limit_active
            },
            ..limited
        }
    }

    pub open spec fn limit_value_set(self, value: Seq<char>) -> AdapterView {
        let limited = self.with_limit_value(value);
        limited.control_set(limited.wants_control())
    }

    pub open spec fn limit_value_actions(self, value: Seq<char>) -> Seq<ControlActionView> {
        seq![ControlActionView::Apply(self.with_limit_value(value).wants_control())]
    }

    /// The adapter with the switch of a switch request, before charging is held
    /// back or released for it.
    pub open spec fn with_limit_state(self, value: Seq<char>) -> AdapterView {
        let (enabled, limit) = limit_state_payload(value);
        let switched = AdapterView {
            chg_up_limit_state: int_text(enabled as int),
            chg_up_limit_value: match limit {
                Some(limit) => int_text(limit as int),
                None => self.chg_up_limit_value,
            },
            charge_control_applied: None,
            ..self
        };
        if enabled == 0 {
            AdapterView { charge_limit_active: false, ..switched }
        } else {
            switched.latch_updated()
        }
    }

    pub open spec fn limit_state_set(self, value: Seq<char>) -> AdapterView {
        let switched = self.with_limit_state(value);
        switched.control_set(switched.wants_control())
    }

    pub open spec fn limit_state_actions(self, value: Seq<char>) -> Seq<ControlActionView> {
        let (enabled, limit) = limit_state_payload(value);
        let threshold = match limit {
            Some(limit) => seq![
                write_of(WriteNode::ChargeStopThreshold, int_text(limit as int)),
            ],
            None => seq![],
        };
        threshold + seq![
            write_of(WriteNode::ChargeLimitState, int_text(enabled as int)),
            ControlActionView::Apply(self.with_limit_state(value).wants_control()),
        ]
    }

    pub open spec fn with_bypass(self, value: Seq<char>) -> AdapterView {
        AdapterView {
            bypass_charge_status: switch_text(bypass_on(value)),
            charge_control_applied: None,
            ..self
        }
    }

    pub open spec fn bypass_set(self, value: Seq<char>) -> AdapterView {
        let bypassed = self.with_bypass(value);
        bypassed.control_set(bypassed.wants_control())
    }

    pub open spec fn bypass_actions(self, value: Seq<char>) -> Seq<ControlActionView> {
        seq![
            ControlActionView::Apply(self.with_bypass(value).wants_control()),
            write_of(WriteNode::BypassStatus, switch_text(bypass_on(value))),
        ]
    }

    /// Charging is held back exactly where it is to be, and the nodes were told.
    pub open spec fn control_agrees(self) -> bool {
        &&& self.charge_control_active == self.wants_control()
        &&& self.charge_control_applied == Some(self.charge_control_active)
    }

    /// What is kept ready agrees with the published state, and the controls with
    /// what is asked for.
    pub open spec fn well_formed(self) -> bool {
        self.caches_agree() && self.control_agrees()
    }
}

fn write(node: WriteNode, value: String) -> (r: ControlAction)
    ensures
        r@ == write_of(node, value@),
{
    ControlAction::Write(NodeWrite { node, value })
}

/// `1` or `0`.
pub fn switch(on: bool) -> (r: String)
    ensures
        r@ == switch_text(on),
{
    if on {
        "1".to_owned()
    } else {
        "0".to_owned()
    }
}

impl Adapter {
    pub fn bypass_should_restrict(&self) -> (r: bool)
        ensures
            r == bypass_on(self@.bypass_charge_status),
    {
        Self::parse_bypass_switch(self.bypass_charge_status.as_str())
    }

    pub fn charge_limit_switch_enabled(&self) -> (r: bool)
        ensures
            r == self@.limit_enabled(),
    {
        text_eq(trim(self.chg_up_limit_state.as_str()), "1")
    }

    pub fn charge_limit_target(&self) -> (r: Option<i32>)
        ensures
            r == self@.limit_target(),
    {
        parse_i32(trim(self.chg_up_limit_value.as_str()))
    }

    fn update_charge_limit_latch(&mut self) -> (r: bool)
        ensures
            final(self)@ == old(self)@.latch_updated(),
            r == final(self)@.charge_limit_active,
    {
        let next: bool = Self::charge_limit_latch_state(
            self.charge_limit_active,
            self.charge_limit_switch_enabled(),
            self.info.battery_capacity,
            self.charge_limit_target(),
        );
        self.charge_limit_active = next;
        next
    }

    fn desired_charge_control_active(&self) -> (r: bool)
        ensures
            r == self@.wants_control(),
    {
        self.bypass_should_restrict() || self.charge_limit_active
    }

    /// Holds the limit against the battery, and charging back where that asks
    /// for it.
    pub fn enforce_charge_control(&mut self) -> (r: Vec<ControlAction>)
        ensures
            final(self)@ == old(self)@.enforced(),
            actions_view(r@) == old(self)@.enforce_actions(),
            old(self)@.well_formed() ==> final(self)@.well_formed(),
    {
        self.update_charge_limit_latch();
        let restrict: bool = self.desired_charge_control_active();
        self.set_charge_control_active(restrict)
    }

    pub fn get_charge_limit_value(&self) -> (r: String)
        ensures
            r@ == self@.chg_up_limit_value,
    {
        self.chg_up_limit_value.clone()
    }

    pub fn set_charge_limit_value(&mut self, value: &str) -> (r: Vec<ControlAction>)
        ensures
            final(self)@ == old(self)@.limit_value_set(value@),
            actions_view(r@) == old(self)@.limit_value_actions(value@),
            old(self)@.well_formed() ==> final(self)@.well_formed(),
    {
        self.charge_control_applied = None;
        let (stop_charging, limit, _force, _recharge): (i32, Option<i32>, i32, Option<i32>) =
            Self::parse_charge_limit_control_payload(value);
        if let Some(limit) = limit {
            self.chg_up_limit_value = decimal(limit);
        } else if let Some(limit) = parse_first_int(value) {
            self.chg_up_limit_value = decimal(limit);
        } else {
            self.chg_up_limit_value = value.to_owned();
        }
        if stop_charging != 0 {
            self.charge_limit_active = true;
        } else if !self.charge_limit_switch_enabled() || !Self::charge_limit_latch_state(
            true,
            true,
            self.info.battery_capacity,
            self.charge_limit_target(),
        ) {
            self.charge_limit_active = false;
        }
        assert(self@ == old(self)@.with_limit_value(value@));
        let restrict: bool = self.desired_charge_control_active();
        self.set_charge_control_active(restrict)
    }

    pub fn get_charge_limit_state(&self) -> (r: String)
        ensures
            r@ == self@.chg_up_limit_state,
    {
        self.chg_up_limit_state.clone()
    }

    pub fn set_charge_limit_state(&mut self, value: &str) -> (r: Vec<ControlAction>)
        ensures
            final(self)@ == old(self)@.limit_state_set(value@),
            actions_view(r@) == old(self)@.limit_state_actions(value@),
            old(self)@.well_formed() ==> final(self)@.well_formed(),
    {
        let mut actions: Vec<ControlAction> = Vec::new();
        self.charge_control_applied = None;
        let (enabled, limit): (i32, Option<i32>) = Self::parse_charge_limit_state_payload(value);
        self.chg_up_limit_state = decimal(enabled);
        if let Some(limit) = limit {
            self.chg_up_limit_value = decimal(limit);
            actions.push(write(WriteNode::ChargeStopThreshold, decimal(limit)));
        }
        if enabled == 0 {
            self.charge_limit_active = false;
        } else {
            self.update_charge_limit_latch();
        }
        assert(self@ == old(self)@.with_limit_state(value@));
        actions.push(write(WriteNode::ChargeLimitState, decimal(enabled)));
        let ghost before = actions@;
        let restrict: bool = self.desired_charge_control_active();
        let mut control: Vec<ControlAction> = self.set_charge_control_active(restrict);
        let ghost last = control@;
        actions.append(&mut control);
        assert(actions_view(actions@) =~= actions_view(before) + actions_view(last));
        actions
    }

    pub fn get_bypass_charge_status(&self) -> (r: String)
        ensures
            r@ == self@.bypass_charge_status,
    {
        self.bypass_charge_status.clone()
    }

    pub fn set_bypass_charge_status(&mut self, value: &str) -> (r: Vec<ControlAction>)
        ensures
            final(self)@ == old(self)@.bypass_set(value@),
            actions_view(r@) == old(self)@.bypass_actions(value@),
            old(self)@.well_formed() ==> final(self)@.well_formed(),
    {
        self.charge_control_applied = None;
        let enabled: bool = Self::parse_bypass_switch(value);
        self.bypass_charge_status = switch(enabled);
        assert(self@ == old(self)@.with_bypass(value@));
        let restrict: bool = self.desired_charge_control_active();
        let mut actions: Vec<ControlAction> = self.set_charge_control_active(restrict);
        let ghost control = actions@;
        actions.push(write(WriteNode::BypassStatus, switch(enabled)));
        assert(actions_view(actions@) =~= actions_view(control).push(
            write_of(WriteNode::BypassStatus, switch_text(enabled)),
        ));
        actions
    }

    /// Holds charging back or releases it. The nodes are told only where they were
    /// last told otherwise.
    pub fn set_charge_control_active(&mut self, restrict: bool) -> (r: Vec<ControlAction>)
        ensures
            final(self)@ == old(self)@.control_set(restrict),
            actions_view(r@) == old(self)@.control_actions(restrict),
    {
        let mut actions: Vec<ControlAction> = Vec::new();
        self.charge_control_active = restrict;
        let known: bool = match self.charge_control_applied {
            Some(applied) => applied == restrict,
            None => false,
        };
        if !known {
            actions.push(ControlAction::Apply(restrict));
            self.charge_control_applied = Some(restrict);
        }
        actions
    }

    /// The writes that hold charging back or release it, where the node for the
    /// maximum level reads `max_value`. That matters to a restriction only.
    pub fn apply_charge_control_limit(restrict: bool, max_value: i32) -> (r: Vec<NodeWrite>)
        ensures
            writes_view(r@) == control_writes(restrict, max_value),
    {
        let value: String = if restrict {
            restricted_charge_control_value(max_value)
        } else {
            CHARGE_CONTROL_LIMIT_RELEASED.to_owned()
        };
        let mut writes: Vec<NodeWrite> = Vec::new();
        writes.push(NodeWrite { node: WriteNode::ChargeControlLimit, value });
        writes.push(NodeWrite { node: WriteNode::CoolMode, value: switch(restrict) });
        writes.push(NodeWrite { node: WriteNode::CoolDown, value: switch(restrict) });
        writes
    }
}

// ── laws ──

proof fn lemma_one_char_switch(c: char)
    requires
        c == '0' || c == '1',
    ensures
        keyed_int(seq![c], "switch"@) is None,
        trimmed(seq![c]) == seq![c],
{
    let s = seq![c];
    let plus = Separator::Char('+');
    reveal_with_fuel(pieces, 2);
    assert(s.drop_last() =~= Seq::<char>::empty());
    assert(text_pieces(s, plus) =~= seq![s]);
    reveal_with_fuel(key_and_value, 2);
    reveal_with_fuel(first_keyed, 2);
}

proof fn lemma_switch_texts()
    ensures
        bypass_on("1"@),
        !bypass_on("0"@),
        trimmed("1"@) == "1"@,
        trimmed("0"@) == "0"@,
        int_text(1) == "1"@,
{
    reveal_strlit("1");
    reveal_strlit("0");
    reveal_strlit("true");
    reveal_strlit("TRUE");
    reveal_strlit("True");
    reveal_strlit("enable");
    reveal_strlit("enabled");
    reveal_strlit("on");
    assert("1"@ =~= seq!['1']);
    assert("0"@ =~= seq!['0']);
    lemma_one_char_switch('1');
    lemma_one_char_switch('0');
    assert("0"@[0] != "1"@[0]);
    assert(int_text(1) =~= "1"@);
}

proof fn lemma_number_reads_back(n: i32)
    ensures
        as_i32(trimmed(int_text(n as int))) == Some(n),
{
    decimal_text_is_trimmed(n as int);
    decimal_text_reads_back(n as int);
}

/// A new adapter holds nothing back, and its controls agree.
pub proof fn new_adapter_controls_agree()
    ensures
        new_adapter().control_agrees(),
        !new_adapter().charge_control_active,
{
    lemma_switch_texts();
}

/// Whatever the controls were, after every request and every enforcement
/// charging is held back exactly where bypass charging or the limit asks for it.
pub proof fn controls_agree_after_requests(adapter: AdapterView, value: Seq<char>)
    ensures
        adapter.enforced().control_agrees(),
        adapter.limit_value_set(value).control_agrees(),
        adapter.limit_state_set(value).control_agrees(),
        adapter.bypass_set(value).control_agrees(),
{
}

/// Publishing a scan leaves the controls alone, and the controls leave what was
/// published alone.
pub proof fn controls_and_published_state_are_apart(
    adapter: AdapterView,
    info: ChargerInfoView,
    fractions: FractionalReadingsView,
    decimal_seed: i32,
    decimal_rate: i32,
    value: Seq<char>,
)
    ensures
        adapter.published(info, fractions, decimal_seed, decimal_rate).control_agrees()
            == adapter.control_agrees(),
        adapter.enforced().caches_agree() == adapter.caches_agree(),
        adapter.limit_value_set(value).caches_agree() == adapter.caches_agree(),
        adapter.limit_state_set(value).caches_agree() == adapter.caches_agree(),
        adapter.bypass_set(value).caches_agree() == adapter.caches_agree(),
{
}

/// The nodes are told exactly where they were last told otherwise, and so only
/// once: to hold charging back, or to release it, again does nothing.
pub proof fn control_is_applied_once(adapter: AdapterView, restrict: bool)
    ensures
        adapter.control_set(restrict).charge_control_active == restrict,
        adapter.control_set(restrict).charge_control_applied == Some(restrict),
        adapter.control_actions(restrict).contains(ControlActionView::Apply(restrict))
            <==> adapter.charge_control_applied != Some(restrict),
        adapter.control_actions(restrict).len() <= 1,
        adapter.control_set(restrict).control_set(restrict) == adapter.control_set(restrict),
        adapter.control_set(restrict).control_actions(restrict) == Seq::<
            ControlActionView,
        >::empty(),
{
    if adapter.charge_control_applied != Some(restrict) {
        assert(adapter.control_actions(restrict)[0] == ControlActionView::Apply(restrict));
    }
}

/// Enforcing again with nothing changed changes nothing and writes nothing.
pub proof fn enforcement_settles(adapter: AdapterView)
    requires
        !(adapter.limit_enabled() && adapter.info.battery_capacity == i32::MIN
            && adapter.limit_target() == Some(i32::MIN)),
    ensures
        adapter.enforced().enforced() == adapter.enforced(),
        adapter.enforced().enforce_actions() == Seq::<ControlActionView>::empty(),
{
    latch_settles(
        adapter.charge_limit_active,
        adapter.limit_enabled(),
        adapter.info.battery_capacity,
        adapter.limit_target(),
    );
}

/// From the limit on charging is held back.
pub proof fn limit_holds_charging_back(adapter: AdapterView, limit: i32)
    requires
        adapter.limit_enabled(),
        adapter.limit_target() == Some(limit),
        adapter.info.battery_capacity >= limit,
        !(adapter.charge_limit_active && adapter.info.battery_capacity == i32::MIN),
    ensures
        adapter.enforced().charge_control_active,
{
    latch_holds_at_limit(adapter.charge_limit_active, adapter.info.battery_capacity, limit);
}

/// Below the limit by the hysteresis or more, only bypass charging holds
/// charging back.
pub proof fn limit_releases_charging(adapter: AdapterView, limit: i32)
    requires
        adapter.limit_target() == Some(limit),
        adapter.info.battery_capacity <= limit - CHARGE_LIMIT_HYSTERESIS_PERCENT,
    ensures
        adapter.enforced().charge_control_active == bypass_on(adapter.bypass_charge_status),
{
}

/// With the limit off, only bypass charging holds charging back.
pub proof fn no_limit_releases_charging(adapter: AdapterView)
    requires
        !adapter.limit_enabled(),
    ensures
        adapter.enforced().charge_control_active == bypass_on(adapter.bypass_charge_status),
{
}

/// A bypass request is read back as what it asked for. Bypass charging holds
/// charging back, and its end leaves that to the limit.
pub proof fn bypass_reads_back(adapter: AdapterView, value: Seq<char>)
    ensures
        bypass_on(adapter.bypass_set(value).bypass_charge_status) == bypass_on(value),
        adapter.bypass_set(value).charge_control_active == (bypass_on(value)
            || adapter.charge_limit_active),
{
    lemma_switch_texts();
}

/// A switch request is read back: the limit is on exactly where it asked for 1,
/// and a limit that it gave is the limit from then on.
pub proof fn limit_state_reads_back(adapter: AdapterView, value: Seq<char>)
    ensures
        ({
            let (enabled, limit) = limit_state_payload(value);
            let after = adapter.limit_state_set(value);
            &&& as_i32(trimmed(after.chg_up_limit_state)) == Some(enabled)
            &&& after.limit_enabled() == (enabled == 1)
            &&& after.limit_target() == match limit {
                Some(_) => limit,
                None => adapter.limit_target(),
            }
        }),
{
    let (enabled, limit) = limit_state_payload(value);
    lemma_switch_texts();
    lemma_number_reads_back(enabled);
    lemma_number_reads_back(1);
    decimal_text_is_trimmed(enabled as int);
    if let Some(limit) = limit {
        lemma_number_reads_back(limit);
    }
}

/// The limit of a limit request is the limit from then on; a request for a stop
/// holds charging back at once, whatever the battery.
pub proof fn limit_value_reads_back(adapter: AdapterView, value: Seq<char>)
    ensures
        ({
            let (stop, limit, _, _) = limit_control_payload(value);
            let after = adapter.limit_value_set(value);
            &&& limit is Some ==> after.limit_target() == limit
            &&& limit is None && first_int(value) is Some ==> after.limit_target() == first_int(
                value,
            )
            &&& stop != 0 ==> after.charge_limit_active && after.charge_control_active
            &&& after.limit_enabled() == adapter.limit_enabled()
        }),
{
    if let Some(limit) = limit_control_payload(value).1 {
        lemma_number_reads_back(limit);
    } else if let Some(limit) = first_int(value) {
        lemma_number_reads_back(limit);
    }
}

/// A limit request without a stop never begins to hold charging back.
pub proof fn limit_request_only_releases(adapter: AdapterView, value: Seq<char>)
    requires
        limit_control_payload(value).0 == 0,
    ensures
        adapter.limit_value_set(value).charge_limit_active ==> adapter.charge_limit_active,
{
}

/// A switch-off request ends the hold of the limit.
pub proof fn switch_off_releases(adapter: AdapterView, value: Seq<char>)
    requires
        limit_state_payload(value).0 == 0,
    ensures
        !adapter.limit_state_set(value).charge_limit_active,
        adapter.limit_state_set(value).charge_control_active == bypass_on(
            adapter.bypass_charge_status,
        ),
{
}

} // verus!
