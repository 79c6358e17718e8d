//! A stopwatch that is restarted by an event and stops counting when it is
//! full.

use vstd::prelude::*;
use vstd::std_specs::convert::FromSpecImpl;

verus! {

/// The largest time a [`Timer`] can show, in microseconds. A timer that was
/// never started shows it, and a running timer stops counting there.
pub const CEILING: u64 = 0xffff_ffff_ffff_ffff;

/// The time shown after `dt` microseconds pass on a timer that shows
/// `elapsed`: the sum, or the ceiling where the sum would lie above it.
pub open spec fn advanced(elapsed: nat, dt: nat) -> nat {
    if elapsed + dt <= CEILING {
        elapsed + dt
    } else {
        CEILING as nat
    }
}

/// The time shown after a tick of `dt` microseconds: none if the timer was
/// restarted in it, `dt` more than before if it was not.
pub open spec fn ticked(elapsed: nat, restart: bool, dt: nat) -> nat {
    if restart {
        0
    } else {
        advanced(elapsed, dt)
    }
}

/// The time shown after a run of ticks, taken first to last. Each tick says
/// whether the timer was restarted in it and how long it took.
pub open spec fn ticked_by_all(elapsed: nat, ticks: Seq<(bool, u64)>) -> nat
    decreases ticks.len(),
{
    if ticks.len() == 0 {
        elapsed
    } else {
        ticked(ticked_by_all(elapsed, ticks.drop_last()), ticks.last().0, ticks.last().1 as nat)
    }
}

/// How long a run of ticks took.
pub open spec fn total(ticks: Seq<(bool, u64)>) -> nat
    decreases ticks.len(),
{
    if ticks.len() == 0 {
        0
    } else {
        total(ticks.drop_last()) + ticks.last().1 as nat
    }
}

/// Whether the timer was restarted in none of the ticks.
pub open spec fn undisturbed(ticks: Seq<(bool, u64)>) -> bool {
    forall|k: int| 0 <= k < ticks.len() ==> !(#[trigger] ticks[k]).0
}

/// Time since an event, in microseconds.
#[derive(Clone, Copy, Debug)]
pub struct Timer {
    elapsed_time: u64,
}

impl View for Timer {
    type V = nat;

    closed spec fn view(&self) -> nat {
        self.elapsed_time as nat
    }
}

impl Default for Timer {
    /// A timer whose event has not happened yet: it shows the ceiling.
    fn default() -> (timer: Self)
        ensures
            timer@ == CEILING,
    {
        Self { elapsed_time: CEILING }
    }
}

impl FromSpecImpl<Timer> for u64 {
    open spec fn obeys_from_spec() -> bool {
        true
    }

    open spec fn from_spec(timer: Timer) -> u64 {
        timer@ as u64
    }
}

impl From<Timer> for u64 {
    /// Reads the timer.
    fn from(timer: Timer) -> (elapsed: u64) {
        timer.elapsed_time
    }
}

impl Timer {
    /// Marks the event as happening now.
    pub fn start(&mut self)
        ensures
            final(self)@ == 0,
    {
        self.elapsed_time = 0
    }

    /// Lets `dt` microseconds pass.
    pub fn update(&mut self, dt: u64)
        ensures
            final(self)@ == advanced(old(self)@, dt as nat),
    {
        self.elapsed_time = self.elapsed_time.saturating_add(dt)
    }

    /// The time shown, in microseconds.
    pub fn elapsed(&self) -> (elapsed: u64)
        ensures
            elapsed == self@,
    {
        self.elapsed_time
    }
}

/// A timer never shows more than the ceiling.
pub proof fn timer_stays_below_ceiling(timer: Timer)
    ensures
        timer@ <= CEILING,
{
}

/// Letting time pass in two parts is letting it pass at once.
pub proof fn advancing_in_parts(elapsed: nat, first: nat, second: nat)
    requires
        elapsed <= CEILING,
    ensures
        advanced(advanced(elapsed, first), second) == advanced(elapsed, first + second),
{
}

/// A run in which the timer is not restarted adds the time it took to what
/// the timer showed, up to the ceiling.
pub proof fn undisturbed_run_adds_up(elapsed: nat, ticks: Seq<(bool, u64)>)
    requires
        elapsed <= CEILING,
        undisturbed(ticks),
    ensures
        ticked_by_all(elapsed, ticks) == advanced(elapsed, total(ticks)),
    decreases ticks.len(),
{
    if ticks.len() > 0 {
        let before = ticks.drop_last();
        assert forall|k: int| 0 <= k < before.len() implies !(#[trigger] before[k]).0 by {
            assert(before[k] == ticks[k]);
        }
        undisturbed_run_adds_up(elapsed, before);
        assert(!ticks[ticks.len() - 1].0);
        advancing_in_parts(elapsed, total(before), ticks.last().1 as nat);
    }
}

/// The timer shows the time since it was last restarted: after a run of
/// ticks with a restart in tick `last` and none after it, it shows how long
/// the ticks after `last` took, up to the ceiling, whatever it showed before.
pub proof fn timer_shows_time_since_last_restart(elapsed: nat, ticks: Seq<(bool, u64)>, last: int)
    requires
        elapsed <= CEILING,
        0 <= last < ticks.len(),
        ticks[last].0,
        undisturbed(ticks.skip(last + 1)),
    ensures
        ticked_by_all(elapsed, ticks) == advanced(0, total(ticks.skip(last + 1))),
    decreases ticks.len(),
{
    let since = ticks.skip(last + 1);
    if last == ticks.len() - 1 {
        assert(since.len() == 0);
    } else {
        let before = ticks.drop_last();
        assert(before.skip(last + 1) =~= since.drop_last());
        assert(before[last] == ticks[last]);
        assert forall|k: int| 0 <= k < since.drop_last().len() implies !(
        #[trigger] since.drop_last()[k]).0 by {
            assert(since.drop_last()[k] == since[k]);
        }
        timer_shows_time_since_last_restart(elapsed, before, last);
        assert(since.last() == ticks.last());
        assert(!since[since.len() - 1].0);
        advancing_in_parts(0, total(since.drop_last()), ticks.last().1 as nat);
    }
}

/// Whatever the ticks, the timer never passes the ceiling, and it goes back
/// only by a restart: over ticks without one, it shows no less at the end
/// than at the start.
pub proof fn timer_goes_back_only_by_restart(elapsed: nat, ticks: Seq<(bool, u64)>, earlier: int)
    requires
        elapsed <= CEILING,
        0 <= earlier <= ticks.len(),
        undisturbed(ticks.skip(earlier)),
    ensures
        ticked_by_all(elapsed, ticks.take(earlier)) <= ticked_by_all(elapsed, ticks) <= CEILING,
    decreases ticks.len() - earlier,
{
    if earlier == ticks.len() {
        assert(ticks.take(earlier) =~= ticks);
        timer_stays_within(elapsed, ticks);
    } else {
        let before = ticks.drop_last();
        assert(before.take(earlier) =~= ticks.take(earlier));
        assert forall|k: int| 0 <= k < before.skip(earlier).len() implies !(
        #[trigger] before.skip(earlier)[k]).0 by {
            assert(before.skip(earlier)[k] == ticks.skip(earlier)[k]);
        }
        timer_goes_back_only_by_restart(elapsed, before, earlier);
        assert(ticks.last() == ticks.skip(earlier)[ticks.len() - 1 - earlier]);
    }
}

/// Whatever the ticks, the timer never passes the ceiling.
pub proof fn timer_stays_within(elapsed: nat, ticks: Seq<(bool, u64)>)
    requires
        elapsed <= CEILING,
    ensures
        ticked_by_all(elapsed, ticks) <= CEILING,
    decreases ticks.len(),
{
    if ticks.len() > 0 {
        timer_stays_within(elapsed, ticks.drop_last());
    }
}

} // verus!
