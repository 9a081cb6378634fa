//! When to scan: the wake-ups of the poll worker and what each leads to.

use crate::adapter::Adapter;
use crate::text::pieces;
use crate::text_laws::{one_piece, pieces_of_a_pair};
use vstd::prelude::*;
use vstd::utf8::{encode_utf8, is_ascii_chars_encode_utf8};

verus! {

pub const SCREEN_ON_POLL_INTERVAL_MS: u64 = 1_000;

pub const SCREEN_OFF_CHARGING_POLL_INTERVAL_MS: u64 = 5_000;

pub const SCREEN_OFF_IDLE_POLL_INTERVAL_MS: u64 = 30_000;

/// A scan is due after this time, whatever a probe finds.
pub const FULL_REFRESH_INTERVAL_MS: u64 = 30_000;

/// How long a scan is put off after the screen turned on or off.
pub const SCREEN_WAKE_SCAN_DEFER_MS: u64 = 750;

/// How long the first scan may keep a start waiting.
pub const INITIAL_REFRESH_WAIT_MS: u64 = 250;

/// What is asked of the poll worker.
#[derive(Debug, Clone, Copy, PartialEq, Eq, Structural)]
pub struct PollFlags {
    pub refresh_pending: bool,
    pub uevent_probe_pending: bool,
    pub screen_on: bool,
    pub screen_wake_pending: bool,
}

/// Why the poll worker woke.
#[derive(Debug, Clone, Copy, PartialEq, Eq, Structural)]
pub enum WakeCause {
    Woken,
    TimedOut,
    Disconnected,
}

/// What the poll worker does next.
#[derive(Debug, Clone, Copy, PartialEq, Eq, Structural)]
pub enum PollAction {
    /// Ends.
    Stop,
    /// Lets the screen come up, then wakes again.
    Defer,
    /// Sleeps on; see [`PollFlags::wakes_again`].
    Sleep,
    /// Looks at the power source.
    Probe,
    /// Scans all nodes.
    Scan,
    /// Reads the decimal state of charge and its rate.
    ReadDecimals,
    /// Publishes the result of the scan.
    Publish,
    /// Enforces the charge controls.
    Enforce,
    /// Notes that a full refresh is done, and sleeps on.
    Refreshed,
}

/// What the poll worker has come to.
#[derive(Debug, Clone, Copy, PartialEq, Eq, Structural)]
pub enum PollEvent {
    /// It woke, so many milliseconds after the last full refresh.
    Woke(WakeCause, u64),
    /// It looked at the power source, and whether that changed.
    Probed(bool),
    /// A scan ended, and whether it was completed.
    Scanned(bool),
    DecimalsRead,
    Published,
    Enforced,
}

pub open spec fn no_requests() -> PollFlags {
    PollFlags {
        refresh_pending: false,
        uevent_probe_pending: false,
        screen_on: false,
        screen_wake_pending: false,
    }
}

impl Default for PollFlags {
    fn default() -> (r: Self)
        ensures
            r == no_requests(),
    {
        PollFlags {
            refresh_pending: false,
            uevent_probe_pending: false,
            screen_on: false,
            screen_wake_pending: false,
        }
    }
}

pub open spec fn interval_ms(screen_on: bool, online: bool) -> u64 {
    if screen_on {
        SCREEN_ON_POLL_INTERVAL_MS
    } else if online {
        SCREEN_OFF_CHARGING_POLL_INTERVAL_MS
    } else {
        SCREEN_OFF_IDLE_POLL_INTERVAL_MS
    }
}

impl PollFlags {
    /// The requests with one for a scan.
    pub open spec fn refresh_asked(self) -> PollFlags {
        PollFlags { refresh_pending: true, ..self }
    }

    /// The requests with one for a probe.
    pub open spec fn probe_asked(self) -> PollFlags {
        PollFlags { uevent_probe_pending: true, ..self }
    }

    /// The requests once the screen state is told.
    pub open spec fn screen_told(self, status: i32) -> PollFlags {
        PollFlags {
            screen_on: status != 0,
            screen_wake_pending: self.screen_wake_pending || self.screen_on != (status != 0),
            ..self
        }
    }

    /// A scan is asked for, or the last one is too long ago.
    pub open spec fn scan_due(self, since_full_refresh_ms: u64) -> bool {
        self.refresh_pending || since_full_refresh_ms >= FULL_REFRESH_INTERVAL_MS
    }

    /// What a wake-up leads to.
    pub open spec fn action(self, cause: WakeCause, since_full_refresh_ms: u64) -> PollAction {
        if cause is Disconnected {
            PollAction::Stop
        } else if self.screen_wake_pending {
            PollAction::Defer
        } else if cause is Woken && !self.refresh_pending && !self.uevent_probe_pending {
            PollAction::Sleep
        } else if self.scan_due(since_full_refresh_ms) {
            PollAction::Scan
        } else {
            PollAction::Probe
        }
    }

    /// The requests that are left after a wake-up.
    pub open spec fn after_wake(self, cause: WakeCause) -> PollFlags {
        if cause is Disconnected {
            self
        } else if self.screen_wake_pending {
            PollFlags { screen_wake_pending: false, ..self }
        } else {
            PollFlags { refresh_pending: false, uevent_probe_pending: false, ..self }
        }
    }

    /// Takes a wake-up, with the time since the last completed scan.
    pub fn wake(&mut self, cause: WakeCause, since_full_refresh_ms: u64) -> (r: PollAction)
        ensures
            r == old(self).action(cause, since_full_refresh_ms),
            *final(self) == old(self).after_wake(cause),
    {
        let timed_out: bool = match cause {
            WakeCause::Woken => false,
            WakeCause::TimedOut => true,
            WakeCause::Disconnected => return PollAction::Stop,
        };
        if self.screen_wake_pending {
            self.screen_wake_pending = false;
            return PollAction::Defer;
        }
        let refresh_requested: bool = self.refresh_pending;
        let uevent_probe_requested: bool = self.uevent_probe_pending;
        self.refresh_pending = false;
        self.uevent_probe_pending = false;
        if !timed_out && !refresh_requested && !uevent_probe_requested {
            return PollAction::Sleep;
        }
        let maintenance_due: bool = since_full_refresh_ms >= FULL_REFRESH_INTERVAL_MS;
        if refresh_requested || maintenance_due {
            PollAction::Scan
        } else {
            PollAction::Probe
        }
    }

    /// Whether the result of a scan may be used: it was completed and the screen
    /// has not changed meanwhile. Where it may not, a new scan is asked for.
    pub fn accept_scan(&mut self, completed: bool) -> (r: bool)
        ensures
            r == (completed && !old(self).screen_wake_pending),
            *final(self) == (PollFlags {
                refresh_pending: old(self).refresh_pending || !r,
                ..*old(self)
            }),
    {
        if !completed || self.screen_wake_pending {
            Adapter::request_refresh(self);
            return false;
        }
        true
    }

    /// What an event leads to.
    pub open spec fn reaction(self, event: PollEvent) -> PollAction {
        match event {
            PollEvent::Woke(cause, since_full_refresh_ms) => self.action(
                cause,
                since_full_refresh_ms,
            ),
            PollEvent::Probed(changed) => if changed {
                PollAction::Scan
            } else {
                PollAction::Sleep
            },
            PollEvent::Scanned(completed) => if completed && !self.screen_wake_pending {
                PollAction::ReadDecimals
            } else {
                PollAction::Sleep
            },
            PollEvent::DecimalsRead => if !self.screen_wake_pending {
                PollAction::Publish
            } else {
                PollAction::Sleep
            },
            PollEvent::Published => if !self.screen_wake_pending {
                PollAction::Enforce
            } else {
                PollAction::Sleep
            },
            PollEvent::Enforced => PollAction::Refreshed,
        }
    }

    /// The requests that are left after an event. Where a refresh breaks off, a
    /// new one is asked for.
    pub open spec fn after(self, event: PollEvent) -> PollFlags {
        let again = PollFlags { refresh_pending: true, ..self };
        match event {
            PollEvent::Woke(cause, _) => self.after_wake(cause),
            PollEvent::Probed(_) => self,
            PollEvent::Scanned(completed) => if completed && !self.screen_wake_pending {
                self
            } else {
                again
            },
            PollEvent::DecimalsRead | PollEvent::Published => if !self.screen_wake_pending {
                self
            } else {
                again
            },
            PollEvent::Enforced => self,
        }
    }

    /// Takes an event and gives what to do next.
    pub fn step(&mut self, event: PollEvent) -> (r: PollAction)
        ensures
            r == old(self).reaction(event),
            *final(self) == old(self).after(event),
    {
        match event {
            PollEvent::Woke(cause, since_full_refresh_ms) => self.wake(
                cause,
                since_full_refresh_ms,
            ),
            PollEvent::Probed(changed) => if changed {
                PollAction::Scan
            } else {
                PollAction::Sleep
            },
            PollEvent::Scanned(completed) => if self.accept_scan(completed) {
                PollAction::ReadDecimals
            } else {
                PollAction::Sleep
            },
            PollEvent::DecimalsRead => if self.accept_scan(true) {
                PollAction::Publish
            } else {
                PollAction::Sleep
            },
            PollEvent::Published => if self.accept_scan(true) {
                PollAction::Enforce
            } else {
                PollAction::Sleep
            },
            PollEvent::Enforced => PollAction::Refreshed,
        }
    }

    /// A sleep that a request is left for does not last.
    pub open spec fn goes_again(self, action: PollAction) -> bool {
        action is Sleep && self.refresh_pending
    }

    /// Whether the worker is to be woken at once after `action`, for what is left
    /// of a refresh that broke off.
    pub fn wakes_again(&self, action: PollAction) -> (r: bool)
        ensures
            r == self.goes_again(action),
    {
        match action {
            PollAction::Sleep => self.refresh_pending,
            _ => false,
        }
    }
}

/// The field of a uevent that a power supply sends.
pub open spec fn power_supply_field() -> Seq<u8> {
    encode_utf8("SUBSYSTEM=power_supply"@)
}

/// A uevent, whose fields a zero byte ends, is of a power supply.
pub open spec fn power_supply_uevent(message: Seq<u8>) -> bool {
    pieces(message, |byte: u8| byte == 0).contains(power_supply_field())
}

fn bytes_at_eq(message: &[u8], start: usize, stop: usize, want: &[u8]) -> (r: bool)
    requires
        start <= stop <= message@.len(),
    ensures
        r == (message@.subrange(start as int, stop as int) == want@),
{
    if stop - start != want.len() {
        return false;
    }
    let ghost part = message@.subrange(start as int, stop as int);
    let mut i: usize = 0;
    while i < want.len()
        invariant
            start <= stop <= message@.len(),
            stop - start == want@.len(),
            part == message@.subrange(start as int, stop as int),
            i <= want@.len(),
            forall|j: int| 0 <= j < i ==> part[j] == want@[j],
        decreases want@.len() - i,
    {
        if message[start + i] != want[i] {
            assert(part[i as int] != want@[i as int]);
            return false;
        }
        i = i + 1;
    }
    assert(part =~= want@);
    true
}

proof fn lemma_contains_push(fields: Seq<Seq<u8>>, field: Seq<u8>, want: Seq<u8>)
    ensures
        fields.push(field).contains(want) == (fields.contains(want) || field == want),
{
    let all = fields.push(field);
    if fields.contains(want) {
        let k = choose|k: int| 0 <= k < fields.len() && fields[k] == want;
        assert(all[k] == want);
    }
    assert(all[fields.len() as int] == field);
    if all.contains(want) {
        let k = choose|k: int| 0 <= k < all.len() && all[k] == want;
        assert(k < fields.len() ==> fields[k] == want);
    }
}

pub fn is_power_supply_uevent(message: &[u8]) -> (r: bool)
    ensures
        r == power_supply_uevent(message@),
{
    let want: &[u8] = "SUBSYSTEM=power_supply".as_bytes();
    let ghost is_end = |byte: u8| byte == 0;
    let ghost mut fields: Seq<Seq<u8>> = Seq::empty();
    let mut found: bool = false;
    let mut start: usize = 0;
    let mut i: usize = 0;
    assert(message@.subrange(0, 0) =~= Seq::<u8>::empty());
    assert(fields.push(message@.subrange(0, 0)) =~= pieces(message@.take(0), is_end));
    while i < message.len()
        invariant
            want@ == power_supply_field(),
            is_end == |byte: u8| byte == 0,
            start <= i <= message@.len(),
            found == fields.contains(want@),
            fields.push(message@.subrange(start as int, i as int)) == pieces(
                message@.take(i as int),
                is_end,
            ),
        decreases message@.len() - i,
    {
        let ghost before = pieces(message@.take(i as int), is_end);
        let ghost field = message@.subrange(start as int, i as int);
        assert(message@.take(i + 1).drop_last() =~= message@.take(i as int));
        if message[i] == 0 {
            if bytes_at_eq(message, start, i, want) {
                found = true;
            }
            proof {
                lemma_contains_push(fields, field, want@);
                fields = fields.push(field);
            }
            start = i + 1;
            assert(message@.subrange(start as int, i + 1) =~= Seq::<u8>::empty());
        } else {
            assert(before.drop_last() =~= fields);
            assert(message@.subrange(start as int, i + 1) =~= field.push(message@[i as int]));
        }
        i = i + 1;
    }
    assert(message@.take(i as int) =~= message@);
    let last: bool = bytes_at_eq(message, start, i, want);
    proof {
        lemma_contains_push(fields, message@.subrange(start as int, i as int), want@);
    }
    found || last
}

/// What came of waiting for a uevent.
#[derive(Debug, Clone, Copy, PartialEq, Eq, Structural)]
pub enum UeventOutcome {
    /// A message: whether it is of a power supply, and whether the adapter that
    /// it concerns is still there.
    Message { power_supply: bool, adapter_alive: bool },
    /// A signal came in between.
    Interrupted,
    /// Nothing more can be received.
    Failed,
}

/// What the uevent monitor does next.
#[derive(Debug, Clone, Copy, PartialEq, Eq, Structural)]
pub enum UeventAction {
    /// Waits for the next uevent.
    Receive,
    /// Asks for a probe, then waits for the next uevent.
    Probe,
    /// Ends.
    Finish,
    /// Ends with the error.
    Fail,
}

/// A uevent of a power supply asks for a probe, and ends the monitor where there
/// is no adapter left to probe for. Others are passed over, as is a signal; an
/// error ends the monitor.
pub open spec fn uevent_answer(outcome: UeventOutcome) -> UeventAction {
    match outcome {
        UeventOutcome::Message { power_supply, adapter_alive } => if !power_supply {
            UeventAction::Receive
        } else if adapter_alive {
            UeventAction::Probe
        } else {
            UeventAction::Finish
        },
        UeventOutcome::Interrupted => UeventAction::Receive,
        UeventOutcome::Failed => UeventAction::Fail,
    }
}

pub fn uevent_reaction(outcome: UeventOutcome) -> (r: UeventAction)
    ensures
        r == uevent_answer(outcome),
{
    match outcome {
        UeventOutcome::Message { power_supply, adapter_alive } => if !power_supply {
            UeventAction::Receive
        } else if adapter_alive {
            UeventAction::Probe
        } else {
            UeventAction::Finish
        },
        UeventOutcome::Interrupted => UeventAction::Receive,
        UeventOutcome::Failed => UeventAction::Fail,
    }
}

impl Adapter {
    /// How long the poll worker sleeps, in milliseconds.
    pub fn poll_interval(screen_on: bool, online: bool) -> (r: u64)
        ensures
            r == interval_ms(screen_on, online),
    {
        if screen_on {
            SCREEN_ON_POLL_INTERVAL_MS
        } else if online {
            SCREEN_OFF_CHARGING_POLL_INTERVAL_MS
        } else {
            SCREEN_OFF_IDLE_POLL_INTERVAL_MS
        }
    }

    pub fn request_refresh(flags: &mut PollFlags)
        ensures
            *final(flags) == (PollFlags { refresh_pending: true, ..*old(flags) }),
            *final(flags) == old(flags).refresh_asked(),
    {
        flags.refresh_pending = true;
    }

    pub fn request_uevent_probe(flags: &mut PollFlags)
        ensures
            *final(flags) == (PollFlags { uevent_probe_pending: true, ..*old(flags) }),
            *final(flags) == old(flags).probe_asked(),
    {
        flags.uevent_probe_pending = true;
    }

    /// Takes the screen state. It needs the flags alone, so it waits for no scan
    /// and for no control.
    pub fn notify_screen_status(flags: &mut PollFlags, status: i32)
        ensures
            *final(flags) == (PollFlags {
                screen_on: status != 0,
                screen_wake_pending: old(flags).screen_wake_pending || old(flags).screen_on != (
                status != 0),
                ..*old(flags)
            }),
            *final(flags) == old(flags).screen_told(status),
    {
        let screen_on: bool = status != 0;
        let previous: bool = flags.screen_on;
        flags.screen_on = screen_on;
        if previous != screen_on {
            flags.screen_wake_pending = true;
        }
    }
}

// ── laws ──

/// Polling slows down with the screen off, and further without a charger.
pub proof fn polling_slows_down()
    ensures
        forall|online: bool| #[trigger] interval_ms(true, online) < interval_ms(false, true),
        interval_ms(false, true) < interval_ms(false, false),
{
}

/// A screen change puts every scan off, and no request is lost by it: the
/// requests stay for the wake-up after the wait.
pub proof fn screen_change_defers_and_keeps_requests(
    flags: PollFlags,
    cause: WakeCause,
    since_full_refresh_ms: u64,
)
    requires
        flags.screen_wake_pending,
        cause !is Disconnected,
    ensures
        flags.action(cause, since_full_refresh_ms) is Defer,
        flags.after_wake(cause) == (PollFlags { screen_wake_pending: false, ..flags }),
{
}

/// A request for a scan leads to one, unless the screen has just changed.
pub proof fn refresh_request_leads_to_scan(
    flags: PollFlags,
    cause: WakeCause,
    since_full_refresh_ms: u64,
)
    requires
        flags.refresh_pending,
        !flags.screen_wake_pending,
        cause !is Disconnected,
    ensures
        flags.action(cause, since_full_refresh_ms) is Scan,
{
}

/// A uevent leads to a probe at least, unless the screen has just changed.
pub proof fn uevent_leads_to_probe_or_scan(
    flags: PollFlags,
    cause: WakeCause,
    since_full_refresh_ms: u64,
)
    requires
        flags.uevent_probe_pending,
        !flags.screen_wake_pending,
        cause !is Disconnected,
    ensures
        flags.action(cause, since_full_refresh_ms) is Probe || flags.action(
            cause,
            since_full_refresh_ms,
        ) is Scan,
{
}

/// A wake-up without a request does nothing.
pub proof fn wake_without_request_sleeps_on(flags: PollFlags, since_full_refresh_ms: u64)
    requires
        !flags.refresh_pending,
        !flags.uevent_probe_pending,
        !flags.screen_wake_pending,
    ensures
        flags.action(WakeCause::Woken, since_full_refresh_ms) is Sleep,
        flags.after_wake(WakeCause::Woken) == flags,
{
}

/// A timeout leads to a scan once the last one is too long ago.
pub proof fn timeout_leads_to_due_scan(flags: PollFlags, since_full_refresh_ms: u64)
    requires
        !flags.screen_wake_pending,
        since_full_refresh_ms >= FULL_REFRESH_INTERVAL_MS,
    ensures
        flags.action(WakeCause::TimedOut, since_full_refresh_ms) is Scan,
{
}

/// A timeout looks at the power source at least, unless the screen has just
/// changed.
pub proof fn timeout_leads_to_probe_or_scan(flags: PollFlags, since_full_refresh_ms: u64)
    requires
        !flags.screen_wake_pending,
    ensures
        flags.action(WakeCause::TimedOut, since_full_refresh_ms) is Probe || flags.action(
            WakeCause::TimedOut,
            since_full_refresh_ms,
        ) is Scan,
{
}

/// With the screen at rest a completed scan is published, then the controls are
/// enforced, and the refresh is done.
pub proof fn quiet_refresh_is_published_and_enforced(flags: PollFlags)
    requires
        !flags.screen_wake_pending,
    ensures
        flags.reaction(PollEvent::Scanned(true)) is ReadDecimals,
        flags.reaction(PollEvent::DecimalsRead) is Publish,
        flags.reaction(PollEvent::Published) is Enforce,
        flags.reaction(PollEvent::Enforced) is Refreshed,
        flags.after(PollEvent::Scanned(true)) == flags,
        flags.after(PollEvent::DecimalsRead) == flags,
        flags.after(PollEvent::Published) == flags,
        flags.after(PollEvent::Enforced) == flags,
{
}

/// A refresh that a screen change overtakes, or whose scan was given up, breaks
/// off and is made up for: the worker wakes again at once, and a new scan follows
/// once the screen is at rest.
pub proof fn broken_off_refresh_is_repeated(
    flags: PollFlags,
    event: PollEvent,
    since_full_refresh_ms: u64,
)
    requires
        event == PollEvent::Scanned(false) || (flags.screen_wake_pending && (event
            is Scanned || event is DecimalsRead || event is Published)),
    ensures
        flags.reaction(event) is Sleep,
        flags.after(event).refresh_pending,
        flags.after(event).goes_again(flags.reaction(event)),
        ({
            let rested = PollFlags { screen_wake_pending: false, ..flags.after(event) };
            rested.action(WakeCause::Woken, since_full_refresh_ms) is Scan
        }),
{
}

/// After a wake-up, and after a refresh that went through, the worker does not
/// wake again at once.
pub proof fn undisturbed_worker_sleeps_on(flags: PollFlags, event: PollEvent)
    requires
        event is Woke || event == PollEvent::Enforced,
    ensures
        !flags.after(event).goes_again(flags.reaction(event)),
{
}

/// Nothing is published but after the decimals were read, and then only with the
/// screen at rest; the decimals are read only after a completed scan.
pub proof fn only_completed_scans_are_published(flags: PollFlags, event: PollEvent)
    ensures
        flags.reaction(event) is Publish <==> event is DecimalsRead && !flags.screen_wake_pending,
        flags.reaction(event) is ReadDecimals <==> event == PollEvent::Scanned(true)
            && !flags.screen_wake_pending,
{
}

/// A scan follows only a wake-up that asks for it, or a probe that found a
/// change.
pub proof fn scans_are_asked_for(flags: PollFlags, event: PollEvent)
    requires
        flags.reaction(event) is Scan,
    ensures
        event == PollEvent::Probed(true) || (event matches PollEvent::Woke(_, since)
            && flags.scan_due(since)),
{
}

/// The worker sleeps a second with the screen on, and with it off five seconds on
/// a power source and half a minute without one. A screen change puts a scan off for
/// three quarters of a second, and a start waits a quarter of one for the first.
pub proof fn poll_intervals(online: bool)
    ensures
        interval_ms(true, online) == 1_000,
        interval_ms(false, true) == 5_000,
        interval_ms(false, false) == 30_000,
        SCREEN_WAKE_SCAN_DEFER_MS == 750,
        INITIAL_REFRESH_WAIT_MS == 250,
{
}

/// Where the screen is at rest, a request for a scan and half a minute without one
/// lead to a scan, and so does neither alone to less: a timeout or a uevent before
/// that leads to a probe, and a wake-up without a request to nothing.
pub proof fn wake_ups_by_their_cause(flags: PollFlags, since_full_refresh_ms: u64)
    requires
        !flags.screen_wake_pending,
    ensures
        ({
            let due = flags.refresh_pending || since_full_refresh_ms >= 30_000;
            let timeout = flags.action(WakeCause::TimedOut, since_full_refresh_ms);
            let woken = flags.action(WakeCause::Woken, since_full_refresh_ms);
            let asked = flags.refresh_pending || flags.uevent_probe_pending;
            &&& due ==> timeout == PollAction::Scan
            &&& !due ==> timeout == PollAction::Probe
            &&& asked && due ==> woken == PollAction::Scan
            &&& asked && !due ==> woken == PollAction::Probe
            &&& !asked ==> woken == PollAction::Sleep
        }),
{
}

/// Whatever is pending, the end of all requests stops the worker, and nothing is
/// taken off it.
pub proof fn disconnection_stops(flags: PollFlags, since_full_refresh_ms: u64)
    ensures
        flags.action(WakeCause::Disconnected, since_full_refresh_ms) == PollAction::Stop,
        flags.after_wake(WakeCause::Disconnected) == flags,
{
}

/// A wake-up with the screen at rest takes the requests, and leaves what is known
/// of the screen.
pub proof fn wake_up_takes_the_requests(flags: PollFlags, cause: WakeCause)
    requires
        !flags.screen_wake_pending,
        cause != WakeCause::Disconnected,
    ensures
        ({
            let left = flags.after_wake(cause);
            &&& !left.refresh_pending && !left.uevent_probe_pending && !left.screen_wake_pending
            &&& left.screen_on == flags.screen_on
        }),
{
}

/// A request stays until it is taken, and leaves the others.
pub proof fn requests_are_noted(flags: PollFlags)
    ensures
        ({
            let asked = flags.refresh_asked();
            &&& asked.refresh_pending && asked.uevent_probe_pending == flags.uevent_probe_pending
            &&& asked.screen_on == flags.screen_on
            &&& asked.screen_wake_pending == flags.screen_wake_pending
        }),
        ({
            let asked = flags.probe_asked();
            &&& asked.uevent_probe_pending && asked.refresh_pending == flags.refresh_pending
            &&& asked.screen_on == flags.screen_on
            &&& asked.screen_wake_pending == flags.screen_wake_pending
        }),
{
}

/// The screen is on for every status but 0. A change is noted until it is taken,
/// also where the screen changes back meanwhile; the same state again is no
/// change; and no request is touched.
pub proof fn screen_changes_are_noted(flags: PollFlags, status: i32, again: i32)
    ensures
        ({
            let told = flags.screen_told(status);
            &&& told.screen_on <==> status != 0
            &&& told.refresh_pending == flags.refresh_pending
            &&& told.uevent_probe_pending == flags.uevent_probe_pending
            &&& flags.screen_wake_pending ==> told.screen_wake_pending
            &&& flags.screen_on != (status != 0) ==> told.screen_wake_pending
                && told.screen_told(again).screen_wake_pending
            &&& flags.screen_on == (status != 0) ==> told == flags
        }),
{
}

/// A probe that found a change leads to a scan, and one that did not to sleep;
/// neither takes a request.
pub proof fn probes_lead_on(flags: PollFlags)
    ensures
        flags.reaction(PollEvent::Probed(true)) == PollAction::Scan,
        flags.reaction(PollEvent::Probed(false)) == PollAction::Sleep,
        flags.after(PollEvent::Probed(true)) == flags,
        flags.after(PollEvent::Probed(false)) == flags,
{
}

/// The worker goes again at once only from a sleep with a scan asked for.
pub proof fn only_a_sleep_is_cut_short(flags: PollFlags, action: PollAction)
    ensures
        flags.goes_again(PollAction::Sleep) == flags.refresh_pending,
        action != PollAction::Sleep ==> !flags.goes_again(action),
{
}

/// Of the messages only those of a power supply count: each asks for a probe while
/// the adapter is there, and ends the monitor once it is not. A signal is passed
/// over, and an error ends the monitor.
pub proof fn uevents_are_answered(adapter_alive: bool)
    ensures
        uevent_answer(UeventOutcome::Message { power_supply: false, adapter_alive })
            == UeventAction::Receive,
        uevent_answer(UeventOutcome::Message { power_supply: true, adapter_alive: true })
            == UeventAction::Probe,
        uevent_answer(UeventOutcome::Message { power_supply: true, adapter_alive: false })
            == UeventAction::Finish,
        uevent_answer(UeventOutcome::Interrupted) == UeventAction::Receive,
        uevent_answer(UeventOutcome::Failed) == UeventAction::Fail,
{
}

proof fn lemma_field_has_no_end()
    ensures
        !power_supply_field().contains(0),
        forall|i: int|
            0 <= i < power_supply_field().len() ==> #[trigger] power_supply_field()[i] != 0,
{
    reveal_strlit("SUBSYSTEM=power_supply");
    is_ascii_chars_encode_utf8("SUBSYSTEM=power_supply"@);
}

/// A message is of a power supply where one of its fields says so, wherever the
/// field stands.
pub proof fn power_supply_field_is_found(before: Seq<u8>, after: Seq<u8>)
    ensures
        ({
            let field = encode_utf8("SUBSYSTEM=power_supply"@);
            &&& power_supply_uevent(field)
            &&& power_supply_uevent(field.push(0) + after)
            &&& power_supply_uevent(before.push(0) + field)
            &&& power_supply_uevent(before.push(0) + (field.push(0) + after))
        }),
{
    let is_end = |byte: u8| byte == 0;
    let field = encode_utf8("SUBSYSTEM=power_supply"@);
    lemma_field_has_no_end();
    assert forall|i: int| 0 <= i < field.len() implies !is_end(#[trigger] field[i]) by {}
    one_piece(field, is_end);
    assert(pieces(field, is_end)[0] == field);
    let tail = field.push(0) + after;
    pieces_of_a_pair(field, 0, after, is_end);
    assert(pieces(tail, is_end)[0] == field);
    pieces_of_a_pair(before, 0, field, is_end);
    let n = pieces(before, is_end).len() as int;
    assert(pieces(before.push(0) + field, is_end)[n] == field);
    pieces_of_a_pair(before, 0, tail, is_end);
    assert(pieces(before.push(0) + tail, is_end)[n] == field);
}

/// A lone field is of a power supply only where it says exactly that: one that
/// merely begins or ends so is not, nor is an empty one.
pub proof fn only_the_whole_field_counts(field: Seq<u8>)
    requires
        !field.contains(0),
    ensures
        power_supply_uevent(field) <==> field == encode_utf8("SUBSYSTEM=power_supply"@),
{
    let is_end = |byte: u8| byte == 0;
    assert forall|i: int| 0 <= i < field.len() implies !is_end(#[trigger] field[i]) by {
        assert(field.contains(field[i]));
    }
    one_piece(field, is_end);
    assert(pieces(field, is_end)[0] == field);
}

/// Fields of two messages, one after the other, say nothing that neither says.
pub proof fn no_field_no_power_supply(before: Seq<u8>, after: Seq<u8>)
    ensures
        power_supply_uevent(before.push(0) + after) == (power_supply_uevent(before)
            || power_supply_uevent(after)),
{
    let is_end = |byte: u8| byte == 0;
    let field = power_supply_field();
    pieces_of_a_pair(before, 0, after, is_end);
    let first = pieces(before, is_end);
    let second = pieces(after, is_end);
    if first.contains(field) {
        let k = choose|k: int| 0 <= k < first.len() && first[k] == field;
        assert((first + second)[k] == field);
    }
    if second.contains(field) {
        let k = choose|k: int| 0 <= k < second.len() && second[k] == field;
        assert((first + second)[first.len() + k] == field);
    }
    if (first + second).contains(field) {
        let k = choose|k: int| 0 <= k < (first + second).len() && (first + second)[k] == field;
        if k < first.len() {
            assert(first[k] == field);
        } else {
            assert(second[k - first.len()] == field);
        }
    }
}

} // verus!
