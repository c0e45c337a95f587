//! A progress-observing decorator for pull-based sequences.
//!
//! Wrapping a source with [`BarIter::progress`] gives a [`BarIterStruct`] that
//! yields exactly what the source yields, and tells its [`Bar`] about every pull.

mod bar;
mod iterator_bar;
mod source;

pub use bar::{can_notify, lemma_notification_count, notified, notified_n, Bar};
pub use iterator_bar::{BarIter, BarIterStruct};
pub use source::{
    after_back, after_front, back, forward_count, front, lemma_backward_pulls, lemma_forward_pulls,
    lemma_mixed_pulls, pulled_back_n, pulled_front_n, pulled_mixed, ExactLen, Pull, PullBack, VecSource,
};
