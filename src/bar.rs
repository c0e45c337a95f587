use vstd::prelude::*;

verus! {

/// The progress tracker that an adapter reports to.
///
/// Only what the adapter reads or changes is kept here: the declared total,
/// the number of units recorded, whether progress display has begun, and how
/// many count-unchanged redraws have been asked for.
pub struct Bar {
    /// Declared number of units of work.
    pub total: u64,
    /// Units of progress recorded so far.
    pub counter: u64,
    /// Whether the display has begun; once set, the adapter records units.
    pub started: bool,
    /// Number of redraws requested without a change of the count.
    pub refreshes: u64,
}

/// Whether one more notification on `b` fits in its counters.
pub open spec fn can_notify(b: Bar) -> bool {
    if b.started {
        b.counter < u64::MAX
    } else {
        b.refreshes < u64::MAX
    }
}

/// The tracker after one pull has been reported to it: a recorded unit when
/// the display has begun, a redraw otherwise.
pub open spec fn notified(b: Bar) -> Bar {
    if b.started {
        Bar { counter: (b.counter + 1) as u64, ..b }
    } else {
        Bar { refreshes: (b.refreshes + 1) as u64, ..b }
    }
}

/// The tracker after `n` pulls have been reported to it, with no other change
/// in between.
pub open spec fn notified_n(b: Bar, n: nat) -> Bar
    decreases n,
{
    if n == 0 {
        b
    } else {
        notified(notified_n(b, (n - 1) as nat))
    }
}

/// Every reported pull is exactly one notification: after `n` pulls the
/// recorded units and the redraws together have grown by `n`. Once the
/// display has begun every one of them is a recorded unit; before, every one
/// is a redraw and the display stays where it was.
pub proof fn lemma_notification_count(b: Bar, n: nat)
    requires
        b.counter + n <= u64::MAX,
        b.refreshes + n <= u64::MAX,
    ensures
        notified_n(b, n).counter + notified_n(b, n).refreshes == b.counter + b.refreshes + n,
        notified_n(b, n).total == b.total,
        notified_n(b, n).started == b.started,
        b.started ==> notified_n(b, n).counter == b.counter + n && notified_n(b, n).refreshes
            == b.refreshes,
        !b.started ==> notified_n(b, n).refreshes == b.refreshes + n && notified_n(b, n).counter
            == b.counter,
    decreases n,
{
    if n > 0 {
        lemma_notification_count(b, (n - 1) as nat);
    }
}

impl Bar {
    /// A tracker for `total` units, with nothing recorded and not yet begun.
    pub fn new(total: u64) -> (r: Bar)
        ensures
            r == (Bar { total, counter: 0, started: false, refreshes: 0 }),
    {
        Bar { total, counter: 0, started: false, refreshes: 0 }
    }

    /// Records `n` units of progress; the display has begun after it.
    pub fn update(&mut self, n: u64)
        requires
            old(self).counter + n <= u64::MAX,
        ensures
            *final(self) == (Bar { counter: (old(self).counter + n) as u64, started: true, ..*old(self) }),
    {
        self.counter = self.counter + n;
        self.started = true;
    }

    /// Asks for a redraw without changing the recorded progress.
    pub fn refresh(&mut self)
        requires
            old(self).refreshes < u64::MAX,
        ensures
            *final(self) == (Bar { refreshes: (old(self).refreshes + 1) as u64, ..*old(self) }),
    {
        self.refreshes = self.refreshes + 1;
    }
}

} // verus!
