use vstd::prelude::*;

use crate::text::{duration_text, format_duration, MAX_SPAN};

verus! {

/// Nanoseconds from `start` to `now` on a monotonic clock; a `now` that lies
/// before `start` counts as no time at all.
pub open spec fn elapsed(start: u64, now: u64) -> nat {
    if now >= start {
        (now - start) as nat
    } else {
        0
    }
}

/// One stopwatch: time banked from earlier intervals (`append`) plus the
/// interval running since `start`, as last refreshed (`time_from`).
/// Instants are nanoseconds on a monotonic clock; spans are nanoseconds.
#[derive(Debug, Clone, Copy, PartialEq, Eq)]
pub struct Time {
    /// When the running interval began.
    pub start: u64,
    /// The running interval, as of the last refresh.
    pub time_from: u128,
    /// Time banked from intervals already folded in.
    pub append: u128,
}

impl Time {
    /// The time this stopwatch reports: banked plus running.
    pub open spec fn total(self) -> nat {
        (self.append + self.time_from) as nat
    }

    /// The total fits in the largest span the stopwatch can hold.
    pub open spec fn wf(self) -> bool {
        self.total() <= MAX_SPAN
    }

    /// Refreshing or folding at `now` keeps the total representable.
    pub open spec fn fits_at(self, now: u64) -> bool {
        self.append + elapsed(self.start, now) <= MAX_SPAN
    }

    /// A stopwatch started at `start` with `banked` nanoseconds already banked.
    pub open spec fn started(start: u64, banked: nat) -> Time {
        Time { start, time_from: 0, append: banked as u128 }
    }

    /// The same stopwatch with its running interval refreshed at `now`.
    pub open spec fn ticked(self, now: u64) -> Time {
        Time { time_from: elapsed(self.start, now) as u128, ..self }
    }

    /// The same stopwatch restarted at `now`, its banked time kept.
    pub open spec fn restarted(self, now: u64) -> Time {
        Time::started(now, self.append as nat)
    }

    /// The same stopwatch with the interval up to `now` banked, restarted at `now`.
    pub open spec fn swapped(self, now: u64) -> Time {
        Time::started(now, (self.append + elapsed(self.start, now)) as nat)
    }

    /// A fresh stopwatch started at `start`, with nothing banked.
    pub fn new(start: u64) -> (r: Time)
        ensures
            r == Time::started(start, 0),
    {
        Time { start, time_from: 0, append: 0 }
    }

    /// A stopwatch that starts at `now` with `time` nanoseconds already banked.
    pub fn from(time: u128, now: u64) -> (r: Time)
        requires
            time <= MAX_SPAN,
        ensures
            r == Time::started(now, time as nat),
            r.wf(),
    {
        Time { start: now, time_from: 0, append: time }
    }

    /// Refreshes the running interval to the time from `start` to `now`;
    /// the banked time is left alone.
    pub fn tick(&mut self, now: u64)
        requires
            old(self).fits_at(now),
        ensures
            *final(self) == old(self).ticked(now),
            final(self).wf(),
    {
        let running: u64 = if now >= self.start { now - self.start } else { 0 };
        self.time_from = running as u128;
    }

    /// Banks the interval from `start` to `now` and restarts at `now`.
    pub fn swap_current(&mut self, now: u64)
        requires
            old(self).fits_at(now),
        ensures
            *final(self) == old(self).swapped(now),
            final(self).wf(),
    {
        let running: u64 = if now >= self.start { now - self.start } else { 0 };
        self.append = self.append + running as u128;
        self.new_start(now);
    }

    /// Restarts the running interval at `now`, keeping the banked time.
    pub fn new_start(&mut self, now: u64)
        ensures
            *final(self) == old(self).restarted(now),
    {
        self.start = now;
        self.time_from = 0;
    }

    /// The total as `HH:MM:SS`.
    pub fn to_string(&self) -> (r: String)
        requires
            self.wf(),
        ensures
            r@ == duration_text(self.total()),
    {
        format_duration(self.append + self.time_from)
    }

    /// Folds `source` at `now` and takes over its banked time as this
    /// stopwatch's own, restarted at `now`.
    pub fn copy(&mut self, source: &mut Self, now: u64)
        requires
            old(source).fits_at(now),
        ensures
            *final(source) == old(source).swapped(now),
            *final(self) == Time::started(now, final(source).append as nat),
            final(self).wf(),
    {
        source.swap_current(now);
        self.append = source.append;
        self.new_start(now);
    }

    /// The total in nanoseconds.
    pub fn export_time(&self) -> (r: u128)
        requires
            self.wf(),
        ensures
            r as nat == self.total(),
    {
        self.append + self.time_from
    }

    /// Whether the total is representable.
    pub fn is_well_formed(&self) -> (r: bool)
        ensures
            r == self.wf(),
    {
        self.append <= MAX_SPAN && self.time_from <= MAX_SPAN - self.append
    }

    /// Whether refreshing or folding at `now` keeps the total representable.
    pub fn fits(&self, now: u64) -> (r: bool)
        ensures
            r == self.fits_at(now),
    {
        let running: u64 = if now >= self.start { now - self.start } else { 0 };
        self.append <= MAX_SPAN - running as u128
    }
}

/// The stopwatch after refreshes at each instant of `nows` in turn.
pub open spec fn ticks_applied(t: Time, nows: Seq<u64>) -> Time
    decreases nows.len(),
{
    if nows.len() == 0 {
        t
    } else {
        ticks_applied(t, nows.drop_last()).ticked(nows.last())
    }
}

/// Refreshing leaves the banked time and the start alone and is idempotent at
/// one instant; a later refresh reports exactly the time since the start, so
/// neither the running interval nor the total shrinks as `now` advances.
pub proof fn lemma_tick_keeps_banked(t: Time, now1: u64, now2: u64)
    requires
        t.start <= now1 <= now2,
    ensures
        t.ticked(now1).append == t.append,
        t.ticked(now1).start == t.start,
        t.ticked(now1).ticked(now1) == t.ticked(now1),
        t.ticked(now1).ticked(now2).time_from == now2 - t.start,
        t.ticked(now1).time_from <= t.ticked(now1).ticked(now2).time_from,
        t.ticked(now1).total() <= t.ticked(now1).ticked(now2).total(),
{
}

/// After a fold, any number of refreshes at any instants, before the next
/// restart, leave the banked time as the fold left it.
pub proof fn lemma_ticks_after_fold(t: Time, fold: u64, nows: Seq<u64>)
    ensures
        ticks_applied(t.swapped(fold), nows).append == t.swapped(fold).append,
        ticks_applied(t.swapped(fold), nows).start == fold,
    decreases nows.len(),
{
    if nows.len() > 0 {
        lemma_ticks_after_fold(t, fold, nows.drop_last());
    }
}

} // verus!
