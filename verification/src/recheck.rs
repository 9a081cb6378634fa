//! The recheck of an adapter power that may still be on its way up: a charger
//! of the highest quick-charge type that shows 30 to 35 W is read three times
//! more, and the highest power counts.

use crate::adapter::Adapter;
use crate::classify::quick_charge_type_4;
use crate::text::{trim, trimmed};
use vstd::prelude::*;

verus! {

pub const POWER_RECHECK_MIN_W: i32 = 30;

pub const POWER_RECHECK_MAX_W: i32 = 35;

/// The wait before each further reading.
pub const POWER_RECHECK_DELAY_MS: u64 = 10;

/// The number of further readings.
pub const POWER_RECHECK_READS: u8 = 3;

/// What a recheck asks for next.
#[derive(Debug, Clone, Copy, PartialEq, Eq, Structural)]
pub enum RecheckStep {
    /// The quick-charge type as it is now.
    ReadType,
    /// The power after a wait; so many readings are left.
    ReadPower(u8),
    /// Nothing.
    Done,
}

/// A recheck under way.
#[derive(Debug, Clone, Copy, PartialEq, Eq, Structural)]
pub struct PowerRecheck {
    /// The highest power up to now.
    pub best_power_w: i32,
    pub step: RecheckStep,
}

pub open spec fn in_recheck_range(power_w: i32) -> bool {
    POWER_RECHECK_MIN_W <= power_w <= POWER_RECHECK_MAX_W
}

/// A recheck of `power_w` once the quick-charge type is known.
pub open spec fn recheck_with_type(power_w: i32, quick_charge_type: Seq<char>) -> PowerRecheck {
    PowerRecheck {
        best_power_w: power_w,
        step: if quick_charge_type_4(quick_charge_type) {
            RecheckStep::ReadPower(POWER_RECHECK_READS)
        } else {
            RecheckStep::Done
        },
    }
}

/// The start of a recheck of `power_w`.
pub open spec fn recheck_start(power_w: i32, quick_charge_type: Seq<char>) -> PowerRecheck {
    if !in_recheck_range(power_w) {
        PowerRecheck { best_power_w: power_w, step: RecheckStep::Done }
    } else if trimmed(quick_charge_type).len() == 0 {
        PowerRecheck { best_power_w: power_w, step: RecheckStep::ReadType }
    } else {
        recheck_with_type(power_w, quick_charge_type)
    }
}

pub open spec fn higher(a: i32, b: i32) -> i32 {
    if a < b {
        b
    } else {
        a
    }
}

impl PowerRecheck {
    /// The recheck after one more power reading.
    pub open spec fn with_power(self, power_w: i32) -> PowerRecheck {
        match self.step {
            RecheckStep::ReadPower(left) => PowerRecheck {
                best_power_w: higher(self.best_power_w, power_w),
                step: if left > 1 {
                    RecheckStep::ReadPower((left - 1) as u8)
                } else {
                    RecheckStep::Done
                },
            },
            _ => self,
        }
    }

    /// Takes the quick-charge type that [`RecheckStep::ReadType`] asks for.
    pub fn type_read(&mut self, quick_charge_type: &str)
        requires
            old(self).step is ReadType,
        ensures
            *final(self) == recheck_with_type(old(self).best_power_w, quick_charge_type@),
    {
        self.step = if Adapter::is_quick_charge_type_4(quick_charge_type) {
            RecheckStep::ReadPower(POWER_RECHECK_READS)
        } else {
            RecheckStep::Done
        };
    }

    /// Takes the power that [`RecheckStep::ReadPower`] asks for.
    pub fn power_read(&mut self, power_w: i32)
        requires
            old(self).step is ReadPower,
        ensures
            *final(self) == old(self).with_power(power_w),
    {
        if let RecheckStep::ReadPower(left) = self.step {
            if self.best_power_w < power_w {
                self.best_power_w = power_w;
            }
            self.step = if left > 1 {
                RecheckStep::ReadPower(left - 1)
            } else {
                RecheckStep::Done
            };
        }
    }
}

impl Adapter {
    pub fn should_recheck_power(power_w: i32) -> (r: bool)
        ensures
            r == in_recheck_range(power_w),
    {
        POWER_RECHECK_MIN_W <= power_w && power_w <= POWER_RECHECK_MAX_W
    }

    /// Starts the recheck of `current_power_w`, with the quick-charge type as
    /// far as it is known.
    pub fn stable_adapter_power_w_with(current_power_w: i32, quick_charge_type: &str) -> (r:
        PowerRecheck)
        ensures
            r == recheck_start(current_power_w, quick_charge_type@),
    {
        if !Self::should_recheck_power(current_power_w) {
            return PowerRecheck { best_power_w: current_power_w, step: RecheckStep::Done };
        }
        let mut recheck: PowerRecheck = PowerRecheck {
            best_power_w: current_power_w,
            step: RecheckStep::ReadType,
        };
        if !trim(quick_charge_type).is_empty() {
            recheck.type_read(quick_charge_type);
        }
        recheck
    }
}

// ── laws ──

/// The power that a recheck settles on, with `later_type` the quick-charge type
/// read during it and `reads` the power readings: the highest where the range
/// and the type call for further readings, and otherwise `power_w` itself.
pub open spec fn rechecked_power(
    power_w: i32,
    quick_charge_type: Seq<char>,
    later_type: Seq<char>,
    reads: (i32, i32, i32),
) -> i32 {
    let effective = if trimmed(quick_charge_type).len() == 0 {
        later_type
    } else {
        quick_charge_type
    };
    if in_recheck_range(power_w) && quick_charge_type_4(effective) {
        higher(higher(higher(power_w, reads.0), reads.1), reads.2)
    } else {
        power_w
    }
}

/// A recheck once its question for the type, if it has one, is answered.
pub open spec fn recheck_typed(
    power_w: i32,
    quick_charge_type: Seq<char>,
    later_type: Seq<char>,
) -> PowerRecheck {
    let started = recheck_start(power_w, quick_charge_type);
    if started.step is ReadType {
        recheck_with_type(power_w, later_type)
    } else {
        started
    }
}

/// A recheck that is answered to its end has the power of [`rechecked_power`].
pub proof fn recheck_takes_the_highest_power(
    power_w: i32,
    quick_charge_type: Seq<char>,
    later_type: Seq<char>,
    reads: (i32, i32, i32),
)
    ensures
        ({
            let typed = recheck_typed(power_w, quick_charge_type, later_type);
            let ended = typed.with_power(reads.0).with_power(reads.1).with_power(reads.2);
            &&& ended.step is Done
            &&& ended.best_power_w == rechecked_power(
                power_w,
                quick_charge_type,
                later_type,
                reads,
            )
            &&& ended.best_power_w >= power_w
        }),
{
}

/// A power outside the range is kept without any reading.
pub proof fn no_reads_outside_recheck_range(power_w: i32, quick_charge_type: Seq<char>)
    requires
        !in_recheck_range(power_w),
    ensures
        recheck_start(power_w, quick_charge_type).step is Done,
        recheck_start(power_w, quick_charge_type).best_power_w == power_w,
{
}

/// A known quick-charge type other than the highest keeps the power without any
/// reading.
pub proof fn no_reads_for_other_types(power_w: i32, quick_charge_type: Seq<char>)
    requires
        trimmed(quick_charge_type).len() > 0,
        !quick_charge_type_4(quick_charge_type),
    ensures
        recheck_start(power_w, quick_charge_type).step is Done,
        recheck_start(power_w, quick_charge_type).best_power_w == power_w,
{
}

} // verus!
