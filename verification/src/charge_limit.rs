//! Charge-limit and bypass requests: what their payloads say, and when the
//! limit holds charging back.

use crate::adapter::Adapter;
use crate::text::{
    decimal, first_int, int_text, keyed_int, parse_first_int, parse_keyed_int, parse_plus_ints,
    plus_ints, text_eq, trim, trimmed,
};
use crate::units::as_clamped_i32;
use vstd::prelude::*;

verus! {

/// The restricted charge-control level where the node that gives the maximum is
/// of no use.
pub const CHARGE_CONTROL_LIMIT_RESTRICTED_FALLBACK: i32 = 15;

/// How far below the limit the battery falls before charging resumes.
pub const CHARGE_LIMIT_HYSTERESIS_PERCENT: i32 = 1;

/// The level that restricts charging, from the maximum level.
pub open spec fn restricted_level(max_value: i32) -> i32 {
    if max_value > 1 {
        (max_value - 1) as i32
    } else {
        CHARGE_CONTROL_LIMIT_RESTRICTED_FALLBACK
    }
}

pub fn restricted_charge_control_value(max_value: i32) -> (r: String)
    ensures
        r@ == int_text(restricted_level(max_value) as int),
{
    if max_value > 1 {
        decimal(max_value - 1)
    } else {
        decimal(CHARGE_CONTROL_LIMIT_RESTRICTED_FALLBACK)
    }
}

/// The words that switch on.
pub open spec fn switches_on(value: Seq<char>) -> bool {
    let word = trimmed(value);
    ||| word == "1"@
    ||| word == "true"@
    ||| word == "TRUE"@
    ||| word == "True"@
    ||| word == "enable"@
    ||| word == "enabled"@
    ||| word == "on"@
}

/// A bypass payload switches bypass charging on: by its part `switch=`, or by a
/// word where it has none.
pub open spec fn bypass_on(value: Seq<char>) -> bool {
    match keyed_int(value, "switch"@) {
        Some(v) => v != 0,
        None => switches_on(value),
    }
}

pub open spec fn or_zero(value: Option<i32>) -> i32 {
    match value {
        Some(v) => v,
        None => 0,
    }
}

/// The switch and the limit of a limit-state payload. With three integers of
/// which the first counts the other two, it is left out.
pub open spec fn limit_state_payload(value: Seq<char>) -> (i32, Option<i32>) {
    let ints = plus_ints(value);
    if ints.len() >= 3 && ints[0] == 2 {
        (ints[1], Some(ints[2]))
    } else if ints.len() >= 2 {
        (ints[0], Some(ints[1]))
    } else {
        (or_zero(first_int(value)), None)
    }
}

/// The stop request, its limit, the force request and the recharge level of a
/// limit-control payload. With five integers of which the first counts the
/// other four, it is left out.
pub open spec fn limit_control_payload(value: Seq<char>) -> (
    i32,
    Option<i32>,
    i32,
    Option<i32>,
) {
    let ints = plus_ints(value);
    if ints.len() >= 5 && ints[0] == 4 {
        (ints[1], Some(ints[2]), ints[3], Some(ints[4]))
    } else if ints.len() >= 4 {
        (ints[0], Some(ints[1]), ints[2], Some(ints[3]))
    } else {
        (or_zero(first_int(value)), None, 0, None)
    }
}

/// Whether the limit holds charging back, after it did (`active`) or did not:
/// from the limit on, and then until the charge has fallen by the hysteresis.
/// An unknown limit changes nothing.
pub open spec fn latched(active: bool, enabled: bool, capacity: i32, limit: Option<i32>) -> bool {
    enabled && match limit {
        Some(limit) => if active {
            capacity > as_clamped_i32(limit - CHARGE_LIMIT_HYSTERESIS_PERCENT)
        } else {
            capacity >= limit
        },
        None => active,
    }
}

impl Adapter {
    pub fn bool_like(value: &str) -> (r: bool)
        ensures
            r == switches_on(value@),
    {
        let word: &str = trim(value);
        text_eq(word, "1") || text_eq(word, "true") || text_eq(word, "TRUE") || text_eq(
            word,
            "True",
        ) || text_eq(word, "enable") || text_eq(word, "enabled") || text_eq(word, "on")
    }

    pub fn parse_bypass_switch(value: &str) -> (r: bool)
        ensures
            r == bypass_on(value@),
    {
        match parse_keyed_int(value, "switch") {
            Some(v) => v != 0,
            None => Self::bool_like(value),
        }
    }

    pub fn parse_charge_limit_state_payload(value: &str) -> (r: (i32, Option<i32>))
        ensures
            r == limit_state_payload(value@),
    {
        let ints: Vec<i32> = parse_plus_ints(value);
        if ints.len() >= 3 && ints[0] == 2 {
            (ints[1], Some(ints[2]))
        } else if ints.len() >= 2 {
            (ints[0], Some(ints[1]))
        } else {
            match parse_first_int(value) {
                Some(v) => (v, None),
                None => (0, None),
            }
        }
    }

    pub fn parse_charge_limit_control_payload(value: &str) -> (r: (
        i32,
        Option<i32>,
        i32,
        Option<i32>,
    ))
        ensures
            r == limit_control_payload(value@),
    {
        let ints: Vec<i32> = parse_plus_ints(value);
        if ints.len() >= 5 && ints[0] == 4 {
            (ints[1], Some(ints[2]), ints[3], Some(ints[4]))
        } else if ints.len() >= 4 {
            (ints[0], Some(ints[1]), ints[2], Some(ints[3]))
        } else {
            match parse_first_int(value) {
                Some(v) => (v, None, 0, None),
                None => (0, None, 0, None),
            }
        }
    }

    pub fn charge_limit_latch_state(
        currently_active: bool,
        switch_enabled: bool,
        capacity: i32,
        limit: Option<i32>,
    ) -> (r: bool)
        ensures
            r == latched(currently_active, switch_enabled, capacity, limit),
    {
        if !switch_enabled {
            return false;
        }
        let limit: i32 = match limit {
            Some(v) => v,
            None => return currently_active,
        };
        if currently_active {
            let floor: i32 = if limit > i32::MIN {
                limit - CHARGE_LIMIT_HYSTERESIS_PERCENT
            } else {
                limit
            };
            capacity > floor
        } else {
            capacity >= limit
        }
    }
}

// ── laws ──

/// At the limit or above it the latch holds, whatever it was.
pub proof fn latch_holds_at_limit(active: bool, capacity: i32, limit: i32)
    requires
        capacity >= limit,
        !(active && capacity == i32::MIN),
    ensures
        latched(active, true, capacity, Some(limit)),
{
}

/// Below the limit by the hysteresis or more the latch is released.
pub proof fn latch_releases_below_limit(active: bool, capacity: i32, limit: i32)
    requires
        capacity <= limit - CHARGE_LIMIT_HYSTERESIS_PERCENT,
    ensures
        !latched(active, true, capacity, Some(limit)),
{
}

/// With the switch off the latch is released.
pub proof fn latch_is_off_without_switch(active: bool, capacity: i32, limit: Option<i32>)
    ensures
        !latched(active, false, capacity, limit),
{
}

/// At one capacity the latch settles at once: a second look changes nothing.
pub proof fn latch_settles(active: bool, enabled: bool, capacity: i32, limit: Option<i32>)
    requires
        !(enabled && capacity == i32::MIN && limit == Some(i32::MIN)),
    ensures
        ({
            let next = latched(active, enabled, capacity, limit);
            latched(next, enabled, capacity, limit) == next
        }),
{
}

/// The level that restricts charging is at least 1: 0 would release it.
pub proof fn restricted_level_is_positive(max_value: i32)
    ensures
        restricted_level(max_value) >= 1,
{
}

} // verus!
