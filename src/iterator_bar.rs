use vstd::prelude::*;

use crate::bar::{can_notify, notified, Bar};
use crate::source::{after_back, after_front, back, front, ExactLen, Pull, PullBack};

verus! {

/// A source decorated with a progress tracker.
///
/// Pulling it pulls the source and hands back what the source gave; each pull
/// is reported to the tracker once, after the source has answered.
pub struct BarIterStruct<T> {
    /// The source whose elements are handed out.
    pub iterable: T,
    /// The tracker that hears of every pull.
    pub pb: Bar,
}

impl<T> BarIterStruct<T> {
    /// Borrows the tracker, to read its settings or its progress.
    pub fn deref(&self) -> (r: &Bar)
        ensures
            *r == self.pb,
    {
        &self.pb
    }

    /// Borrows the tracker mutably, to configure it or to mark it begun,
    /// while the adapter keeps it.
    pub fn deref_mut(&mut self) -> (r: &mut Bar)
        ensures
            *r == old(self).pb,
            final(self).pb == *final(r),
            final(self).iterable == old(self).iterable,
    {
        &mut self.pb
    }

    /// Reports one pull to the tracker: a unit of progress once the display
    /// has begun, a redraw before that.
    fn notify(&mut self)
        requires
            can_notify(old(self).pb),
        ensures
            final(self).pb == notified(old(self).pb),
            final(self).iterable == old(self).iterable,
    {
        if self.pb.started {
            self.pb.update(1);
        } else {
            self.pb.refresh();
        }
    }
}

impl<T: Pull> BarIterStruct<T> {
    /// Pulls the next element of the source and reports the pull, whether or
    /// not an element came.
    pub fn next(&mut self) -> (r: Option<T::Item>)
        requires
            can_notify(old(self).pb),
        ensures
            r == front(old(self).iterable.remaining()),
            final(self).iterable.remaining() == after_front(old(self).iterable.remaining()),
            final(self).pb == notified(old(self).pb),
    {
        let item = self.iterable.next();
        self.notify();
        item
    }
}

impl<T: PullBack> BarIterStruct<T> {
    /// Pulls the last element of the source and reports the pull, whether or
    /// not an element came.
    pub fn next_back(&mut self) -> (r: Option<T::Item>)
        requires
            can_notify(old(self).pb),
        ensures
            r == back(old(self).iterable.remaining()),
            final(self).iterable.remaining() == after_back(old(self).iterable.remaining()),
            final(self).pb == notified(old(self).pb),
    {
        let item = self.iterable.next_back();
        self.notify();
        item
    }
}

impl<T: ExactLen> BarIterStruct<T> {
    /// The number of elements the source has still to yield, as the source
    /// reports it.
    pub fn len(&self) -> (r: usize)
        ensures
            r == self.iterable.remaining().len(),
    {
        self.iterable.len()
    }
}

/// Decorating a source with a progress tracker.
pub trait BarIter: Pull {
    /// Wraps the source; the tracker's total is the source's lower size bound
    /// at this moment, and nothing else of the tracker is set.
    fn progress(self) -> (r: BarIterStruct<Self>)
        ensures
            r.iterable == self,
            r.pb == (Bar { total: self.size_lower() as u64, counter: 0, started: false, refreshes: 0 }),
    ;
}

impl<T: Pull> BarIter for T {
    fn progress(self) -> (r: BarIterStruct<Self>) {
        let total = self.size_hint().0;
        BarIterStruct { iterable: self, pb: Bar::new(total as u64) }
    }
}

} // verus!
