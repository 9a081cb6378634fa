//! What the requests of clients say, as they are written, and what is done for
//! them.

use crate::adapter::AdapterView;
use crate::charge_limit::{
    bypass_on, latched, limit_control_payload, limit_state_payload, restricted_level, switches_on,
};
use crate::control::{
    bypass_reads_back, control_writes, limit_state_reads_back, write_of, ControlActionView,
};
use crate::nodes::WriteNode;
use crate::text::{
    as_i32, first_int, int_text, is_digit, keyed_int, plus_ints, trimmed, Separator,
};
use crate::text_laws::{
    first_integer_is_found, first_key_stands, integer_is_read_back, integers_of_a_pair,
    keyed_integer_is_read_back, no_equals_sign_no_key, no_integer_is_found,
    one_part_holds_one_integer,
};
use vstd::prelude::*;

verus! {

// ── limit-control payloads ──

/// The text `a+b+c+d`.
pub open spec fn four_written(a: i32, b: i32, c: i32, d: i32) -> Seq<char> {
    int_text(a as int) + "+"@ + int_text(b as int) + "+"@ + int_text(c as int) + "+"@ + int_text(
        d as int,
    )
}

/// The text `4++a+b+c+d`.
pub open spec fn four_counted(a: i32, b: i32, c: i32, d: i32) -> Seq<char> {
    "4++"@ + int_text(a as int) + "+"@ + int_text(b as int) + "+"@ + int_text(c as int) + "+"@
        + int_text(d as int)
}

/// The text `a+b`.
pub open spec fn two_written(a: i32, b: i32) -> Seq<char> {
    int_text(a as int) + "+"@ + int_text(b as int)
}

/// The text `2++a+b`.
pub open spec fn two_counted(a: i32, b: i32) -> Seq<char> {
    "2++"@ + int_text(a as int) + "+"@ + int_text(b as int)
}

proof fn lemma_next_integer(before: Seq<char>, n: i32)
    ensures
        plus_ints(before + "+"@ + int_text(n as int)) == plus_ints(before).push(n),
{
    integers_of_a_pair(before, int_text(n as int));
    integer_is_read_back(n);
    assert(plus_ints(before) + seq![n] =~= plus_ints(before).push(n));
}

/// The integers of a text that begins with the count `n`, two plus signs and `a`.
proof fn lemma_counted(count: Seq<char>, n: i32, a: i32)
    requires
        0 <= n < 10,
        count == int_text(n as int) + "+"@ + Seq::<char>::empty() + "+"@,
    ensures
        plus_ints(count + int_text(a as int)) == seq![n, a],
{
    let empty = Seq::<char>::empty();
    let head = int_text(n as int) + "+"@ + empty;
    integer_is_read_back(n);
    integers_of_a_pair(int_text(n as int), empty);
    assert(trimmed(empty) =~= empty);
    one_part_holds_one_integer(empty);
    assert(plus_ints(head) =~= seq![n]);
    lemma_next_integer(head, a);
    assert(seq![n].push(a) =~= seq![n, a]);
}

proof fn lemma_counts()
    ensures
        "4++"@ == int_text(4) + "+"@ + Seq::<char>::empty() + "+"@,
        "2++"@ == int_text(2) + "+"@ + Seq::<char>::empty() + "+"@,
{
    reveal_strlit("+");
    reveal_strlit("4++");
    reveal_strlit("2++");
    assert(int_text(4) =~= seq!['4']);
    assert(int_text(2) =~= seq!['2']);
    assert("4++"@ =~= int_text(4) + "+"@ + Seq::<char>::empty() + "+"@);
    assert("2++"@ =~= int_text(2) + "+"@ + Seq::<char>::empty() + "+"@);
}

/// A limit-control payload gives the stop request, the limit, the force request
/// and the recharge level in this order, with a count before them or without.
pub proof fn control_payload_is_read_in_order(a: i32, b: i32, c: i32, d: i32)
    ensures
        limit_control_payload(four_counted(a, b, c, d)) == (a, Some(b), c, Some(d)),
        limit_control_payload(four_written(a, b, c, d)) == (a, Some(b), c, Some(d)),
        limit_control_payload(four_counted(a, b, c, d)) == limit_control_payload(
            four_written(a, b, c, d),
        ),
{
    let ta = int_text(a as int);
    let tb = int_text(b as int);
    let tc = int_text(c as int);
    integer_is_read_back(a);
    lemma_next_integer(ta, b);
    lemma_next_integer(ta + "+"@ + tb, c);
    lemma_next_integer(ta + "+"@ + tb + "+"@ + tc, d);
    assert(plus_ints(four_written(a, b, c, d)) =~= seq![a, b, c, d]);
    lemma_counts();
    lemma_counted("4++"@, 4, a);
    let counted = "4++"@ + ta;
    lemma_next_integer(counted, b);
    lemma_next_integer(counted + "+"@ + tb, c);
    lemma_next_integer(counted + "+"@ + tb + "+"@ + tc, d);
    assert(plus_ints(four_counted(a, b, c, d)) =~= seq![4i32, a, b, c, d]);
}

/// What follows the four values of a counted limit-control payload is ignored.
pub proof fn rest_of_control_payload_is_ignored(a: i32, b: i32, c: i32, d: i32, rest: Seq<char>)
    ensures
        limit_control_payload(four_counted(a, b, c, d) + "+"@ + rest) == (a, Some(b), c, Some(d)),
        a != 4 ==> limit_control_payload(four_written(a, b, c, d) + "+"@ + rest) == (
            a,
            Some(b),
            c,
            Some(d),
        ),
{
    let ta = int_text(a as int);
    let tb = int_text(b as int);
    let tc = int_text(c as int);
    integer_is_read_back(a);
    lemma_next_integer(ta, b);
    lemma_next_integer(ta + "+"@ + tb, c);
    lemma_next_integer(ta + "+"@ + tb + "+"@ + tc, d);
    assert(plus_ints(four_written(a, b, c, d)) =~= seq![a, b, c, d]);
    lemma_counts();
    lemma_counted("4++"@, 4, a);
    let counted = "4++"@ + ta;
    lemma_next_integer(counted, b);
    lemma_next_integer(counted + "+"@ + tb, c);
    lemma_next_integer(counted + "+"@ + tb + "+"@ + tc, d);
    assert(plus_ints(four_counted(a, b, c, d)) =~= seq![4i32, a, b, c, d]);
    integers_of_a_pair(four_written(a, b, c, d), rest);
    integers_of_a_pair(four_counted(a, b, c, d), rest);
}

/// A single number, with anything but a number around it, is the stop request of
/// a limit-control payload and the switch of a limit-state payload; it gives no
/// limit. Two or three numbers are too few for a limit-control payload, of which
/// only the first counts then.
pub proof fn short_payloads_give_their_first_number(a: i32, b: i32, c: i32)
    ensures
        limit_control_payload(int_text(a as int)) == (a, None::<i32>, 0i32, None::<i32>),
        limit_control_payload(two_written(a, b)) == (a, None::<i32>, 0i32, None::<i32>),
        limit_control_payload(two_written(a, b) + "+"@ + int_text(c as int)) == (
            a,
            None::<i32>,
            0i32,
            None::<i32>,
        ),
        limit_state_payload(int_text(a as int)) == (a, None::<i32>),
{
    reveal_strlit("+");
    let ta = int_text(a as int);
    let tb = int_text(b as int);
    let tc = int_text(c as int);
    let empty = Seq::<char>::empty();
    integer_is_read_back(a);
    lemma_next_integer(ta, b);
    lemma_next_integer(two_written(a, b), c);
    assert(!is_digit('+'));
    assert(empty + ta + empty =~= ta);
    first_integer_is_found(empty, a, empty);
    assert(empty + ta + ("+"@ + tb) =~= two_written(a, b));
    first_integer_is_found(empty, a, "+"@ + tb);
    assert(empty + ta + ("+"@ + tb + "+"@ + tc) =~= two_written(a, b) + "+"@ + tc);
    first_integer_is_found(empty, a, "+"@ + tb + "+"@ + tc);
}

/// With fewer than four numbers a limit-control payload asks for what its first
/// number says, or for nothing where it has none, and so does a limit-state payload
/// with fewer than two; neither gives a limit then.
pub proof fn payloads_without_enough_numbers(value: Seq<char>, n: i32)
    ensures
        plus_ints(value).len() < 4 && first_int(value) == Some(n) ==> limit_control_payload(value)
            == (n, None::<i32>, 0i32, None::<i32>),
        plus_ints(value).len() < 4 && first_int(value) is None ==> limit_control_payload(value) == (
            0i32,
            None::<i32>,
            0i32,
            None::<i32>,
        ),
        plus_ints(value).len() < 2 && first_int(value) == Some(n) ==> limit_state_payload(value)
            == (n, None::<i32>),
        plus_ints(value).len() < 2 && first_int(value) is None ==> limit_state_payload(value) == (
            0i32,
            None::<i32>,
        ),
{
}

/// A limit-state payload gives the switch and then the limit, with a count before
/// them or without; what follows them is ignored.
pub proof fn state_payload_is_read_in_order(a: i32, b: i32, rest: Seq<char>)
    ensures
        limit_state_payload(two_counted(a, b)) == (a, Some(b)),
        limit_state_payload(two_written(a, b)) == (a, Some(b)),
        limit_state_payload(two_counted(a, b) + "+"@ + rest) == (a, Some(b)),
        a != 2 ==> limit_state_payload(two_written(a, b) + "+"@ + rest) == (a, Some(b)),
{
    let ta = int_text(a as int);
    integer_is_read_back(a);
    lemma_next_integer(ta, b);
    assert(plus_ints(two_written(a, b)) =~= seq![a, b]);
    lemma_counts();
    lemma_counted("2++"@, 2, a);
    lemma_next_integer("2++"@ + ta, b);
    assert(plus_ints(two_counted(a, b)) =~= seq![2i32, a, b]);
    integers_of_a_pair(two_written(a, b), rest);
    integers_of_a_pair(two_counted(a, b), rest);
}

/// A part of a payload that is no number has no say: the payload without it is
/// read the same.
pub proof fn words_in_payloads_have_no_say(before: Seq<char>, word: Seq<char>, after: Seq<char>)
    requires
        !word.contains('+'),
        as_i32(trimmed(word)) is None,
        plus_ints(before + "+"@ + after).len() >= 4,
    ensures
        limit_control_payload(before + "+"@ + word + "+"@ + after) == limit_control_payload(
            before + "+"@ + after,
        ),
        limit_state_payload(before + "+"@ + word + "+"@ + after) == limit_state_payload(
            before + "+"@ + after,
        ),
{
    one_part_holds_one_integer(word);
    integers_of_a_pair(before, word);
    integers_of_a_pair(before + "+"@ + word, after);
    integers_of_a_pair(before, after);
    assert(plus_ints(before + "+"@ + word) =~= plus_ints(before));
}

// ── bypass payloads ──

/// The part `switch=n` of a bypass payload decides, wherever it stands: every
/// number but 0 switches on. Of two such parts the first decides.
pub proof fn bypass_switch_decides(before: Seq<char>, n: i32, after: Seq<char>)
    requires
        keyed_int(before, "switch"@) is None,
    ensures
        bypass_on("switch="@ + int_text(n as int)) == (n != 0),
        bypass_on(before + "+"@ + ("switch="@ + int_text(n as int))) == (n != 0),
        bypass_on("switch="@ + int_text(n as int) + "+"@ + after) == (n != 0),
        bypass_on(before + "+"@ + ("switch="@ + int_text(n as int)) + "+"@ + after) == (n != 0),
{
    reveal_strlit("switch");
    reveal_strlit("switch=");
    reveal_strlit("=");
    let part = "switch="@ + int_text(n as int);
    assert(part =~= "switch"@ + "="@ + int_text(n as int));
    keyed_integer_is_read_back("switch"@, n, "switch"@);
    first_key_stands(before, part, "switch"@);
    first_key_stands(part, after, "switch"@);
    first_key_stands(before + "+"@ + part, after, "switch"@);
}

/// Without a part `switch=n` a bypass payload is a word, which switches on or does
/// not; a word that switches on does so with white space around it too.
pub proof fn bypass_words_decide(value: Seq<char>)
    requires
        keyed_int(value, "switch"@) is None,
    ensures
        bypass_on(value) <==> ({
            let word = trimmed(value);
            word == "1"@ || word == "on"@ || word == "enable"@ || word == "enabled"@ || word
                == "true"@ || word == "True"@ || word == "TRUE"@
        }),
        bypass_on(value) == switches_on(value),
{
}

// ── the latch ──

/// With the switch on, charging is held back exactly from the limit on: it begins
/// at the limit and ends one percent below it. An unknown limit changes nothing,
/// and without the switch nothing is held back.
pub proof fn latch_is_held_from_the_limit_on(active: bool, capacity: i32, limit: i32)
    requires
        limit > i32::MIN,
    ensures
        latched(active, true, capacity, Some(limit)) <==> capacity >= limit,
        latched(active, true, capacity, None) == active,
        !latched(active, false, capacity, Some(limit)),
        !latched(active, false, capacity, None),
{
}

/// The level that restricts charging is one below the maximum, and 15 where the
/// maximum leaves no room for that.
pub proof fn restricted_level_is_below_the_maximum(max_value: i32)
    ensures
        max_value >= 2 ==> restricted_level(max_value) + 1 == max_value,
        max_value <= 1 ==> restricted_level(max_value) == 15,
{
}

/// Charging is held back by a level below the maximum and both cooling switches
/// on, and released by the level 0 and both off, whatever the maximum is.
pub proof fn control_writes_hold_back_or_release(max_value: i32)
    ensures
        ({
            let held = control_writes(true, max_value);
            let level = if max_value >= 2 {
                max_value - 1
            } else {
                15
            };
            &&& held.len() == 3
            &&& held[0].node == WriteNode::ChargeControlLimit && held[0].value == int_text(level)
            &&& held[1].node == WriteNode::CoolMode && held[1].value == "1"@
            &&& held[2].node == WriteNode::CoolDown && held[2].value == "1"@
        }),
        ({
            let released = control_writes(false, max_value);
            &&& released.len() == 3
            &&& released[0].node == WriteNode::ChargeControlLimit
            &&& released[1].node == WriteNode::CoolMode
            &&& released[2].node == WriteNode::CoolDown
            &&& forall|i: int| 0 <= i < 3 ==> (#[trigger] released[i]).value == "0"@
        }),
{
}

// ── requests ──

/// A switch request with a limit writes the limit and then the switch, and
/// charging is held back or released as the battery stands to the new limit; a
/// request that switches off leaves holding back to bypass charging.
pub proof fn switch_request_is_carried_out(adapter: AdapterView, switch: i32, limit: i32)
    requires
        limit > i32::MIN,
    ensures
        ({
            let value = two_written(switch, limit);
            let after = adapter.limit_state_set(value);
            let bypass = bypass_on(adapter.bypass_charge_status);
            &&& after.chg_up_limit_state == int_text(switch as int)
            &&& after.chg_up_limit_value == int_text(limit as int)
            &&& switch == 1 ==> after.charge_control_active == (bypass
                || adapter.info.battery_capacity >= limit)
            &&& switch != 1 ==> after.charge_control_active == bypass
            &&& adapter.limit_state_actions(value) == seq![
                write_of(WriteNode::ChargeStopThreshold, int_text(limit as int)),
                write_of(WriteNode::ChargeLimitState, int_text(switch as int)),
                ControlActionView::Apply(after.charge_control_active),
            ]
            &&& adapter.limit_state_set(two_counted(switch, limit)) == after
            &&& adapter.limit_state_actions(two_counted(switch, limit))
                == adapter.limit_state_actions(value)
        }),
{
    let value = two_written(switch, limit);
    state_payload_is_read_in_order(switch, limit, Seq::empty());
    integer_is_read_back(limit);
    integer_is_read_back(switch);
    limit_state_reads_back(adapter, value);
    assert(adapter.limit_state_actions(value) =~= seq![
        write_of(WriteNode::ChargeStopThreshold, int_text(limit as int)),
        write_of(WriteNode::ChargeLimitState, int_text(switch as int)),
        ControlActionView::Apply(adapter.limit_state_set(value).charge_control_active),
    ]);
    assert(adapter.limit_state_actions(two_counted(switch, limit))
        =~= adapter.limit_state_actions(value));
}

/// A switch request without a limit writes the switch only, and the limit stays.
pub proof fn lone_switch_keeps_the_limit(adapter: AdapterView, switch: i32)
    ensures
        ({
            let value = int_text(switch as int);
            let after = adapter.limit_state_set(value);
            &&& after.chg_up_limit_state == value
            &&& after.chg_up_limit_value == adapter.chg_up_limit_value
            &&& adapter.limit_state_actions(value) == seq![
                write_of(WriteNode::ChargeLimitState, value),
                ControlActionView::Apply(after.charge_control_active),
            ]
        }),
{
    let value = int_text(switch as int);
    short_payloads_give_their_first_number(switch, 0, 0);
    assert(adapter.limit_state_actions(value) =~= seq![
        write_of(WriteNode::ChargeLimitState, value),
        ControlActionView::Apply(adapter.limit_state_set(value).charge_control_active),
    ]);
}

/// A limit request sets the limit and leaves the switch. With a stop it holds
/// charging back at once; without one it goes on holding only what was held, and
/// only where the switch is on and the battery is at the new limit. Its force
/// request and its recharge level have no say.
pub proof fn limit_request_is_carried_out(
    adapter: AdapterView,
    stop: i32,
    limit: i32,
    force: i32,
    recharge: i32,
)
    requires
        limit > i32::MIN,
    ensures
        ({
            let value = four_counted(stop, limit, force, recharge);
            let after = adapter.limit_value_set(value);
            let bypass = bypass_on(adapter.bypass_charge_status);
            let on = trimmed(adapter.chg_up_limit_state) == "1"@;
            &&& after.chg_up_limit_value == int_text(limit as int)
            &&& after.chg_up_limit_state == adapter.chg_up_limit_state
            &&& stop != 0 ==> after.charge_limit_active && after.charge_control_active
            &&& stop == 0 ==> after.charge_limit_active == (adapter.charge_limit_active && on
                && adapter.info.battery_capacity >= limit)
            &&& after.charge_control_active == (bypass || after.charge_limit_active)
            &&& adapter.limit_value_actions(value) == seq![
                ControlActionView::Apply(after.charge_control_active),
            ]
            &&& adapter.limit_value_set(four_written(stop, limit, force, recharge)) == after
            &&& adapter.limit_value_set(four_counted(stop, limit, 0, 0)) == after
        }),
{
    control_payload_is_read_in_order(stop, limit, force, recharge);
    control_payload_is_read_in_order(stop, limit, 0, 0);
    integer_is_read_back(limit);
}

/// A limit request that is a number alone sets that limit, and is a request for a
/// stop unless it is 0; one without a number is kept as it is.
pub proof fn lone_limit_is_set(adapter: AdapterView, limit: i32, word: Seq<char>)
    requires
        forall|i: int| 0 <= i < word.len() ==> Separator::NonInteger.splits_at(#[trigger] word[i]),
        plus_ints(word).len() == 0,
    ensures
        adapter.limit_value_set(int_text(limit as int)).chg_up_limit_value == int_text(
            limit as int,
        ),
        limit != 0 ==> adapter.limit_value_set(int_text(limit as int)).charge_control_active,
        adapter.limit_value_set(word).chg_up_limit_value == word,
        adapter.limit_value_set(word).charge_limit_active ==> adapter.charge_limit_active,
{
    short_payloads_give_their_first_number(limit, 0, 0);
    let empty = Seq::<char>::empty();
    assert(empty + int_text(limit as int) + empty =~= int_text(limit as int));
    first_integer_is_found(empty, limit, empty);
    no_integer_is_found(word);
}

/// A bypass request holds charging back or leaves that to the limit, and is
/// written as 1 or 0 after charging is held back or released for it.
pub proof fn bypass_request_is_carried_out(adapter: AdapterView, n: i32)
    ensures
        ({
            let value = "switch="@ + int_text(n as int);
            let after = adapter.bypass_set(value);
            let written = if n != 0 {
                "1"@
            } else {
                "0"@
            };
            &&& after.bypass_charge_status == written
            &&& after.charge_control_active == (n != 0 || adapter.charge_limit_active)
            &&& adapter.bypass_actions(value) == seq![
                ControlActionView::Apply(after.charge_control_active),
                write_of(WriteNode::BypassStatus, written),
            ]
        }),
{
    let value = "switch="@ + int_text(n as int);
    no_equals_sign_no_key(Seq::empty(), "switch"@);
    bypass_switch_decides(Seq::empty(), n, Seq::empty());
    bypass_reads_back(adapter, value);
}

/// Enforcing the controls holds charging back for bypass charging, and for the
/// limit from the limit on where its switch is on.
pub proof fn controls_are_enforced(adapter: AdapterView, limit: i32)
    requires
        limit > i32::MIN,
        as_i32(trimmed(adapter.chg_up_limit_value)) == Some(limit),
    ensures
        ({
            let on = trimmed(adapter.chg_up_limit_state) == "1"@;
            let held = on && adapter.info.battery_capacity >= limit;
            let wanted = bypass_on(adapter.bypass_charge_status) || held;
            let after = adapter.enforced();
            &&& after.charge_limit_active == held
            &&& after.charge_control_active == wanted
            &&& after.charge_control_applied == Some(wanted)
            &&& adapter.charge_control_applied == Some(wanted) ==> adapter.enforce_actions().len()
                == 0
            &&& adapter.charge_control_applied != Some(wanted) ==> adapter.enforce_actions()
                == seq![ControlActionView::Apply(wanted)]
        }),
{
}

/// With a limit that is no number, enforcing holds on to what the limit held back,
/// as long as its switch is on.
pub proof fn unknown_limit_holds_on(adapter: AdapterView)
    requires
        as_i32(trimmed(adapter.chg_up_limit_value)) is None,
    ensures
        ({
            let on = trimmed(adapter.chg_up_limit_state) == "1"@;
            let held = on && adapter.charge_limit_active;
            let after = adapter.enforced();
            &&& after.charge_limit_active == held
            &&& after.charge_control_active == (bypass_on(adapter.bypass_charge_status) || held)
        }),
{
}

/// A request changes its own control and what follows for holding charging back,
/// and nothing else; enforcing changes only the latter.
pub proof fn requests_leave_the_rest_alone(adapter: AdapterView, value: Seq<char>)
    ensures
        ({
            let after = adapter.limit_value_set(value);
            after == AdapterView {
                chg_up_limit_value: after.chg_up_limit_value,
                charge_limit_active: after.charge_limit_active,
                charge_control_active: after.charge_control_active,
                charge_control_applied: Some(after.charge_control_active),
                ..adapter
            }
        }),
        ({
            let after = adapter.limit_state_set(value);
            after == AdapterView {
                chg_up_limit_state: after.chg_up_limit_state,
                chg_up_limit_value: after.chg_up_limit_value,
                charge_limit_active: after.charge_limit_active,
                charge_control_active: after.charge_control_active,
                charge_control_applied: Some(after.charge_control_active),
                ..adapter
            }
        }),
        ({
            let after = adapter.bypass_set(value);
            after == AdapterView {
                bypass_charge_status: after.bypass_charge_status,
                charge_control_active: after.charge_control_active,
                charge_control_applied: Some(after.charge_control_active),
                ..adapter
            }
        }),
        ({
            let after = adapter.enforced();
            after == AdapterView {
                charge_limit_active: after.charge_limit_active,
                charge_control_active: after.charge_control_active,
                charge_control_applied: Some(after.charge_control_active),
                ..adapter
            }
        }),
{
}

} // verus!
