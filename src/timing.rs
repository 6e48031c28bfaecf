//! The timing channel: submission timestamps travel from the submitter to the
//! notifier through crossbeam's Chase-Lev deque, pushed at one end and stolen
//! from the other, so records come out in the order they went in.
use crossbeam::sync::chase_lev;
use vstd::prelude::*;

verus! {

/// A first-in first-out channel of timestamps (nanoseconds of a monotonic
/// clock). Both halves of the deque live here and are only reached through
/// `&mut self`, so no steal ever races another one.
#[verifier::external_body]
pub struct TimingChannel {
    worker: chase_lev::Worker<u64>,
    stealer: chase_lev::Stealer<u64>,
}

/// The records that were pushed and not yet popped, oldest first.
pub uninterp spec fn pending(c: TimingChannel) -> Seq<u64>;

impl TimingChannel {
    /// Relies on crossbeam's `chase_lev::deque`: a new deque is empty.
    #[verifier::external_body]
    fn open_deque() -> (r: TimingChannel)
        ensures
            pending(r) == Seq::<u64>::empty(),
    {
        let (worker, stealer) = chase_lev::deque();
        TimingChannel { worker, stealer }
    }

    /// Relies on crossbeam's `Worker::push`: the record joins the deque at the
    /// worker's end; it never blocks and never fails.
    #[verifier::external_body]
    fn worker_push(&mut self, t: u64)
        ensures
            pending(*final(self)) == pending(*old(self)).push(t),
    {
        self.worker.push(t)
    }

    /// Relies on crossbeam's `Stealer::steal`: it takes the oldest record, or
    /// answers `Empty` when none is pending. `Abort` only comes of a race with
    /// another stealer or with `try_pop`, neither of which exists here.
    #[verifier::external_body]
    fn steal_oldest(&mut self) -> (r: Option<u64>)
        ensures
            pending(*old(self)).len() == 0 ==> r.is_none() && pending(*final(self)) == pending(
                *old(self),
            ),
            pending(*old(self)).len() > 0 ==> r == Some(pending(*old(self))[0]) && pending(
                *final(self),
            ) == pending(*old(self)).drop_first(),
    {
        match self.stealer.steal() {
            chase_lev::Steal::Data(t) => Some(t),
            chase_lev::Steal::Empty => None,
            chase_lev::Steal::Abort => None,
        }
    }
}

impl TimingChannel {
    /// An empty channel.
    pub fn new() -> (r: TimingChannel)
        ensures
            pending(r) == Seq::<u64>::empty(),
    {
        TimingChannel::open_deque()
    }

    /// Appends a record; never blocks, never fails.
    pub fn push(&mut self, t: u64)
        ensures
            pending(*final(self)) == pending(*old(self)).push(t),
    {
        self.worker_push(t)
    }

    /// Takes the oldest pending record, or answers `None`, without blocking,
    /// when nothing is pending.
    pub fn pop(&mut self) -> (r: Option<u64>)
        ensures
            pending(*old(self)).len() == 0 ==> r.is_none() && pending(*final(self)) == pending(
                *old(self),
            ),
            pending(*old(self)).len() > 0 ==> r == Some(pending(*old(self))[0]) && pending(
                *final(self),
            ) == pending(*old(self)).drop_first(),
    {
        self.steal_oldest()
    }
}

/// Relies on `time::precise_time_ns`: a monotonic clock reading in
/// nanoseconds. Nothing is known of its value.
#[verifier::external_body]
pub(crate) fn now_ns() -> (r: u64) {
    time::precise_time_ns()
}

} // verus!
