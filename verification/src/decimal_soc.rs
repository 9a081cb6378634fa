//! The state of charge in hundredths of a percent: a value that climbs through
//! the current percent, seeded by a node where there is one and by a
//! pseudo-random number where there is none.

use crate::adapter::Adapter;
use crate::units::{clamp_i32, clamped};
use vstd::prelude::*;

verus! {

pub const SYNTHETIC_DECIMAL_MIN_CENTI: i32 = 5;

pub const SYNTHETIC_DECIMAL_SEED_MAX_CENTI: i32 = 50;

pub const SYNTHETIC_DECIMAL_MAX_CENTI: i32 = 99;

pub const SYNTHETIC_DECIMAL_STEP_CENTI: i32 = 1;

pub const SYNTHETIC_DECIMAL_MAX_STEP_CENTI: i32 = 3;

/// Where the decimal state of charge stands.
#[derive(Debug, Clone, Copy, PartialEq, Eq, Structural)]
pub struct DecimalSocState {
    /// The percent that `target` belongs to; -1 before the first use.
    pub capacity: i32,
    /// The value last reported as the end of a step.
    pub target: i32,
    /// The state of the pseudo-random generator; 0 before its first use.
    pub random: u32,
}

pub open spec fn unused_decimal_soc() -> DecimalSocState {
    DecimalSocState { capacity: (-1) as i32, target: 0, random: 0 }
}

impl Default for DecimalSocState {
    fn default() -> (r: Self)
        ensures
            r == unused_decimal_soc(),
    {
        DecimalSocState { capacity: -1, target: 0, random: 0 }
    }
}

/// The pseudo-random number after `random`: a linear congruential step, from a
/// fixed number where there is none yet.
pub open spec fn next_random(random: u32) -> u32 {
    let current: int = if random == 0 {
        0x6d2b_79f5
    } else {
        random as int
    };
    ((current * 1_664_525 + 1_013_904_223) % 0x1_0000_0000) as u32
}

/// The offset into the percent `capacity` that a node reading gives, where it
/// lies there. A reading up to 100 is in percent, one up to 10 000 in
/// hundredths, and one over that in ten-thousandths.
pub open spec fn seed_offset(raw: i32, capacity: i32) -> Option<i32> {
    let centi: int = if raw <= 100 {
        raw * 100
    } else if raw <= 10000 {
        raw as int
    } else {
        raw as int / 100
    };
    let offset = centi - clamped(capacity as int, 0, 100) * 100;
    if raw > 0 && SYNTHETIC_DECIMAL_MIN_CENTI <= offset <= SYNTHETIC_DECIMAL_MAX_CENTI {
        Some(offset as i32)
    } else {
        None
    }
}

/// The offset into a percent that a fresh pseudo-random number gives.
pub open spec fn random_offset(random: u32) -> i32 {
    (SYNTHETIC_DECIMAL_MIN_CENTI + next_random(random) as int % (SYNTHETIC_DECIMAL_SEED_MAX_CENTI
        - SYNTHETIC_DECIMAL_MIN_CENTI + 1)) as i32
}

/// The step per report: a quarter of the rate, between 1 and 3. A rate over
/// 10 000 is divided by 100 first.
pub open spec fn decimal_step(rate: i32) -> i32 {
    if rate <= 0 {
        SYNTHETIC_DECIMAL_STEP_CENTI
    } else {
        clamped(
            if rate > 10000 {
                (rate as int / 100) / 4
            } else {
                rate as int / 4
            },
            SYNTHETIC_DECIMAL_STEP_CENTI as int,
            SYNTHETIC_DECIMAL_MAX_STEP_CENTI as int,
        ) as i32
    }
}

pub open spec fn larger(a: int, b: int) -> int {
    if a < b {
        b
    } else {
        a
    }
}

/// The state once it belongs to `percent`: a change of percent sets the value
/// anew, from the node reading or else from a pseudo-random number.
pub open spec fn entered(state: DecimalSocState, percent: int, seed: i32) -> DecimalSocState {
    if state.capacity == percent {
        state
    } else {
        match seed_offset(seed, percent as i32) {
            Some(offset) => DecimalSocState {
                capacity: percent as i32,
                target: (percent * 100 + offset) as i32,
                random: state.random,
            },
            None => DecimalSocState {
                capacity: percent as i32,
                target: (percent * 100 + random_offset(state.random)) as i32,
                random: next_random(state.random),
            },
        }
    }
}

/// The next pair of values to move between, and the state after it.
pub open spec fn decimal_report(
    state: DecimalSocState,
    capacity: i32,
    seed: i32,
    rate: i32,
) -> (DecimalSocState, (i32, i32)) {
    let percent = clamped(capacity as int, 0, 100);
    if percent == 100 {
        (
            DecimalSocState { capacity: 100, target: 10000, random: state.random },
            (10000i32, 10000i32),
        )
    } else {
        let low = percent * 100 + SYNTHETIC_DECIMAL_MIN_CENTI;
        let high = percent * 100 + SYNTHETIC_DECIMAL_MAX_CENTI;
        let here = entered(state, percent, seed);
        let start = clamped(here.target as int, low, high);
        let seen = match seed_offset(seed, percent as i32) {
            Some(offset) => percent * 100 + offset,
            None => start,
        };
        let end = clamped(larger(start + decimal_step(rate), seen), start, high);
        (
            DecimalSocState { capacity: percent as i32, target: end as i32, random: here.random },
            (start as i32, end as i32),
        )
    }
}

impl Adapter {
    pub fn next_synthetic_decimal_random(state: &mut DecimalSocState) -> (r: u32)
        ensures
            r == next_random(old(state).random),
            *final(state) == (DecimalSocState { random: r, ..*old(state) }),
    {
        let current: u32 = if state.random == 0 {
            0x6d2b_79f5
        } else {
            state.random
        };
        let wide: u64 = current as u64 * 1_664_525 + 1_013_904_223;
        state.random = (wide % 0x1_0000_0000) as u32;
        state.random
    }

    pub fn normalize_decimal_seed_offset(raw: i32, capacity: i32) -> (r: Option<i32>)
        ensures
            r == seed_offset(raw, capacity),
    {
        if raw <= 0 {
            return None;
        }
        let base: i32 = clamp_i32(capacity, 0, 100) * 100;
        let normalized: i32 = if raw <= 100 {
            raw * 100
        } else if raw <= 10000 {
            raw
        } else {
            raw / 100
        };
        let offset: i32 = normalized - base;
        if SYNTHETIC_DECIMAL_MIN_CENTI <= offset && offset <= SYNTHETIC_DECIMAL_MAX_CENTI {
            Some(offset)
        } else {
            None
        }
    }

    pub fn next_synthetic_decimal_seed(
        state: &mut DecimalSocState,
        capacity: i32,
        cached_seed: i32,
    ) -> (r: i32)
        ensures
            match seed_offset(cached_seed, capacity) {
                Some(offset) => r == offset && *final(state) == *old(state),
                None => r == random_offset(old(state).random) && *final(state) == (
                DecimalSocState { random: next_random(old(state).random), ..*old(state) }),
            },
    {
        match Self::normalize_decimal_seed_offset(cached_seed, capacity) {
            Some(offset) => offset,
            None => {
                let random: u32 = Self::next_synthetic_decimal_random(state);
                let starts: u32 = (SYNTHETIC_DECIMAL_SEED_MAX_CENTI - SYNTHETIC_DECIMAL_MIN_CENTI
                    + 1) as u32;
                SYNTHETIC_DECIMAL_MIN_CENTI + (random % starts) as i32
            },
        }
    }

    pub fn normalize_decimal_rate(rate: i32) -> (r: i32)
        ensures
            r == decimal_step(rate),
            1 <= r <= 3,
    {
        if rate <= 0 {
            SYNTHETIC_DECIMAL_STEP_CENTI
        } else if rate > 10000 {
            clamp_i32(
                (rate / 100) / 4,
                SYNTHETIC_DECIMAL_STEP_CENTI,
                SYNTHETIC_DECIMAL_MAX_STEP_CENTI,
            )
        } else {
            clamp_i32(rate / 4, SYNTHETIC_DECIMAL_STEP_CENTI, SYNTHETIC_DECIMAL_MAX_STEP_CENTI)
        }
    }

    pub fn synthetic_decimal_soc_pair(
        state: &mut DecimalSocState,
        capacity: i32,
        cached_seed: i32,
        cached_rate: i32,
    ) -> (r: (i32, i32))
        ensures
            (*final(state), r) == decimal_report(*old(state), capacity, cached_seed, cached_rate),
    {
        let percent: i32 = clamp_i32(capacity, 0, 100);
        if percent >= 100 {
            state.capacity = percent;
            state.target = 10000;
            return (10000, 10000);
        }
        let base: i32 = percent * 100;
        let low: i32 = base + SYNTHETIC_DECIMAL_MIN_CENTI;
        let high: i32 = base + SYNTHETIC_DECIMAL_MAX_CENTI;
        let step: i32 = Self::normalize_decimal_rate(cached_rate);
        if state.capacity != percent {
            state.capacity = percent;
            state.target = base + Self::next_synthetic_decimal_seed(state, percent, cached_seed);
        }
        let start: i32 = clamp_i32(state.target, low, high);
        let seed: i32 = match Self::normalize_decimal_seed_offset(cached_seed, percent) {
            Some(offset) => base + offset,
            None => start,
        };
        let stepped: i32 = start + step;
        let wanted: i32 = if stepped < seed {
            seed
        } else {
            stepped
        };
        let end: i32 = clamp_i32(wanted, start, high);
        state.target = end;
        (start, end)
    }
}

// ── laws ──

/// Below 100 percent a report stays inside the percent and never goes back,
/// and it moves on until the last hundredth.
pub proof fn report_stays_in_percent(state: DecimalSocState, capacity: i32, seed: i32, rate: i32)
    requires
        0 <= capacity < 100,
    ensures
        ({
            let (start, end) = decimal_report(state, capacity, seed, rate).1;
            &&& capacity * 100 + SYNTHETIC_DECIMAL_MIN_CENTI <= start <= end
            &&& end <= capacity * 100 + SYNTHETIC_DECIMAL_MAX_CENTI
            &&& start < capacity * 100 + SYNTHETIC_DECIMAL_MAX_CENTI ==> start < end
        }),
{
}

/// A full battery is reported as full.
pub proof fn full_battery_reports_full(state: DecimalSocState, capacity: i32, seed: i32, rate: i32)
    requires
        capacity >= 100,
    ensures
        decimal_report(state, capacity, seed, rate).1 == (10000i32, 10000i32),
{
}

/// Within one percent each report starts where the one before it ended, and
/// ends no lower, whatever the node and the rate say meanwhile.
pub proof fn reports_do_not_regress(
    state: DecimalSocState,
    capacity: i32,
    first_seed: i32,
    first_rate: i32,
    second_seed: i32,
    second_rate: i32,
)
    ensures
        ({
            let (between, first) = decimal_report(state, capacity, first_seed, first_rate);
            let second = decimal_report(between, capacity, second_seed, second_rate).1;
            second.0 == first.1 && second.1 >= first.1
        }),
{
}

/// On entering a percent the node's value is the start, where it lies there.
pub proof fn node_seed_is_the_start(state: DecimalSocState, capacity: i32, seed: i32, rate: i32)
    requires
        0 <= capacity < 100,
        state.capacity != capacity,
        seed_offset(seed, capacity) is Some,
    ensures
        decimal_report(state, capacity, seed, rate).1.0 == capacity * 100 + seed_offset(
            seed,
            capacity,
        )->0,
{
}

/// On entering a percent without a usable node value the start lies in the
/// lower half of the percent.
pub proof fn random_start_is_low(state: DecimalSocState, capacity: i32, seed: i32, rate: i32)
    requires
        0 <= capacity < 100,
        state.capacity != capacity,
        seed_offset(seed, capacity) is None,
    ensures
        capacity * 100 + SYNTHETIC_DECIMAL_MIN_CENTI <= decimal_report(
            state,
            capacity,
            seed,
            rate,
        ).1.0 <= capacity * 100 + SYNTHETIC_DECIMAL_SEED_MAX_CENTI,
{
}

/// A node reading in hundredths or in ten-thousandths of a percent gives the
/// hundredths that it lies above the percent, from 5 to 99; a reading elsewhere,
/// or in whole percent, gives none.
pub proof fn seed_is_read_in_its_unit(capacity: i32, offset: i32, raw: i32)
    requires
        0 <= capacity < 100,
        0 <= offset < 100,
    ensures
        ({
            let centi = capacity * 100 + offset;
            let inside = 5 <= offset <= 99;
            &&& centi > 100 ==> seed_offset(centi as i32, capacity) == (if inside {
                Some(offset)
            } else {
                None
            })
            &&& raw > 10_000 && centi * 100 <= raw < (centi + 1) * 100 ==> seed_offset(
                raw,
                capacity,
            ) == (if inside {
                Some(offset)
            } else {
                None
            })
            &&& raw <= 100 ==> seed_offset(raw, capacity) is None
            &&& 100 < raw <= 10_000 && !(capacity * 100 <= raw < capacity * 100 + 100)
                ==> seed_offset(raw, capacity) is None
        }),
{
}

/// A percent out of range counts as the bound next to it.
pub proof fn seed_percent_is_bounded(raw: i32, capacity: i32)
    ensures
        capacity < 0 ==> seed_offset(raw, capacity) == seed_offset(raw, 0),
        capacity > 100 ==> seed_offset(raw, capacity) == seed_offset(raw, 100),
        seed_offset(raw, capacity) matches Some(offset) ==> 5 <= offset <= 99,
{
}

/// The step is a quarter of the rate, but at least 1 and at most 3 hundredths.
pub proof fn step_follows_the_rate(rate: i32, faster: i32)
    requires
        rate <= faster,
    ensures
        rate <= 7 ==> decimal_step(rate) == 1,
        8 <= rate <= 11 ==> decimal_step(rate) == 2,
        rate >= 12 ==> decimal_step(rate) == 3,
        decimal_step(rate) <= decimal_step(faster),
{
}

/// Inside a percent a report goes on from where the last one ended, by the step of
/// the rate, or to the node's value where that lies further on; it does not leave
/// the percent.
pub proof fn report_moves_by_the_step(
    state: DecimalSocState,
    capacity: i32,
    seed: i32,
    rate: i32,
)
    requires
        0 <= capacity < 100,
        state.capacity == capacity,
        capacity * 100 + 5 <= state.target <= capacity * 100 + 99,
    ensures
        ({
            let (after, (start, end)) = decimal_report(state, capacity, seed, rate);
            let last = capacity * 100 + 99;
            let stepped = start + decimal_step(rate);
            &&& start == state.target
            &&& after.target == end && after.capacity == capacity && after.random == state.random
            &&& seed_offset(seed, capacity) is None && stepped <= last ==> end == stepped
            &&& seed_offset(seed, capacity) is None && stepped > last ==> end == last
            &&& seed_offset(seed, capacity) matches Some(offset) ==> {
                let seen = capacity * 100 + offset;
                &&& seen > stepped ==> end == seen
                &&& seen <= stepped <= last ==> end == stepped
                &&& seen <= stepped && stepped > last ==> end == last
            }
        }),
{
}

/// A report that would start outside its percent starts at the end of it that is
/// nearer.
pub proof fn report_starts_inside(state: DecimalSocState, capacity: i32, seed: i32, rate: i32)
    requires
        0 <= capacity < 100,
        state.capacity == capacity,
    ensures
        state.target < capacity * 100 + 5 ==> decimal_report(state, capacity, seed, rate).1.0
            == capacity * 100 + 5,
        state.target > capacity * 100 + 99 ==> decimal_report(state, capacity, seed, rate).1.0
            == capacity * 100 + 99,
{
}

/// On entering a percent the report starts at the node's value where it lies
/// there, and otherwise from 5 to 50 hundredths into the percent, by a fresh
/// pseudo-random number that is then remembered.
pub proof fn entering_a_percent_starts_anew(
    state: DecimalSocState,
    capacity: i32,
    seed: i32,
    rate: i32,
)
    requires
        0 <= capacity < 100,
        state.capacity != capacity,
    ensures
        ({
            let (after, (start, end)) = decimal_report(state, capacity, seed, rate);
            &&& after.capacity == capacity && after.target == end
            &&& seed_offset(seed, capacity) matches Some(offset) ==> start == capacity * 100
                + offset && after.random == state.random
            &&& seed_offset(seed, capacity) is None ==> {
                &&& start == capacity * 100 + 5 + next_random(state.random) as int % 46
                &&& after.random == next_random(state.random)
                &&& capacity * 100 + 5 <= start <= capacity * 100 + 50
            }
        }),
{
}

/// The pseudo-random numbers follow a linear congruence with the modulus 2^32,
/// from a fixed number on.
pub proof fn random_numbers_follow_a_congruence(random: u32)
    ensures
        random != 0 ==> exists|wraps: int|
            next_random(random) + #[trigger] (wraps * 0x1_0000_0000) == random * 1_664_525
                + 1_013_904_223,
        next_random(0) == next_random(0x6d2b_79f5),
{
    if random != 0 {
        let sum = random as int * 1_664_525 + 1_013_904_223;
        let wraps = sum / 0x1_0000_0000;
        assert(next_random(random) + wraps * 0x1_0000_0000 == sum);
    }
}

/// A full battery, and one over full, stands at 100 percent; one below 0 is
/// reported in its first percent.
pub proof fn report_is_bounded(state: DecimalSocState, capacity: i32, seed: i32, rate: i32)
    ensures
        capacity >= 100 ==> decimal_report(state, capacity, seed, rate) == (
            DecimalSocState { capacity: 100, target: 10_000, random: state.random },
            (10_000i32, 10_000i32),
        ),
        capacity < 0 ==> decimal_report(state, capacity, seed, rate) == decimal_report(
            state,
            0,
            seed,
            rate,
        ),
{
}

} // verus!
