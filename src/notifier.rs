//! The render notifier: what to do when the renderer says a frame is ready.
//! The renderer calls it from its own thread; here each callback is a step
//! from the notifier's state and the popped timing record to an outcome that
//! the host acts on (record a latency, warn, wake the event loop).
use crate::scene::{DeviceSize, PipelineId};
use crate::timing::{now_ns, pending, TimingChannel};
use vstd::prelude::*;

verus! {

/// Every this many notified frames a latency sample is reported when the
/// notifier is verbose.
pub const REPORT_INTERVAL: u32 = 600;

/// Time from a submission stamped `sent` to a ready callback at `now`; zero
/// where the clock reads earlier than the stamp.
pub open spec fn latency_of(sent: u64, now: u64) -> u64 {
    if now >= sent {
        (now - sent) as u64
    } else {
        0
    }
}

/// A ready callback at `sent + d` measures a latency of exactly `d`.
pub proof fn lemma_latency_is_elapsed_time(sent: u64, d: u64)
    requires
        sent + d <= u64::MAX,
    ensures
        latency_of(sent, (sent + d) as u64) == d,
{
}

/// The channel's records after pushing `stamps`, in order, onto `q`.
pub open spec fn after_pushes(q: Seq<u64>, stamps: Seq<u64>) -> Seq<u64>
    decreases stamps.len(),
{
    if stamps.len() == 0 {
        q
    } else {
        after_pushes(q, stamps.drop_last()).push(stamps.last())
    }
}

/// What successive frame-ready callbacks at the clock readings `nows`
/// observe, starting from a channel holding `q`: each takes the oldest
/// record, if any.
pub open spec fn ready_observations(q: Seq<u64>, nows: Seq<u64>) -> Seq<FrameObservation>
    decreases nows.len(),
{
    if nows.len() == 0 {
        Seq::empty()
    } else if q.len() == 0 {
        seq![FrameObservation::MissingRecord] + ready_observations(q, nows.drop_first())
    } else {
        seq![FrameObservation::Latency(latency_of(q[0], nows[0]))] + ready_observations(
            q.drop_first(),
            nows.drop_first(),
        )
    }
}

proof fn lemma_after_pushes_appends(q: Seq<u64>, stamps: Seq<u64>)
    ensures
        after_pushes(q, stamps) == q + stamps,
    decreases stamps.len(),
{
    if stamps.len() > 0 {
        lemma_after_pushes_appends(q, stamps.drop_last());
        assert(q + stamps =~= (q + stamps.drop_last()).push(stamps.last()));
    }
}

/// Submissions stamped `stamps` (in submission order) onto an empty channel,
/// followed by one ready callback per submission at the readings `nows`:
/// the callbacks observe exactly one latency each, in submission order, each
/// measured from its own submission's stamp, and leave nothing behind; a
/// further callback finds no record.
pub proof fn lemma_each_submission_paired_with_one_ready(stamps: Seq<u64>, nows: Seq<u64>)
    requires
        nows.len() == stamps.len(),
    ensures
        after_pushes(Seq::empty(), stamps) == stamps,
        ready_observations(stamps, nows) == Seq::new(
            stamps.len(),
            |i: int| FrameObservation::Latency(latency_of(stamps[i], nows[i])),
        ),
        forall|extra: u64|
            ready_observations(stamps, nows.push(extra)).last() == FrameObservation::MissingRecord,
    decreases stamps.len(),
{
    lemma_after_pushes_appends(Seq::empty(), stamps);
    assert(Seq::<u64>::empty() + stamps =~= stamps);
    if stamps.len() == 0 {
        assert(ready_observations(stamps, nows) =~= Seq::new(
            stamps.len(),
            |i: int| FrameObservation::Latency(latency_of(stamps[i], nows[i])),
        ));
        assert forall|extra: u64|
            ready_observations(stamps, nows.push(extra)).last()
                == FrameObservation::MissingRecord by {
            assert(nows.push(extra).drop_first() =~= Seq::<u64>::empty());
            assert(ready_observations(stamps, Seq::<u64>::empty()) == Seq::<
                FrameObservation,
            >::empty());
            assert(ready_observations(stamps, nows.push(extra)) =~= seq![
                FrameObservation::MissingRecord,
            ]);
        }
    } else {
        lemma_each_submission_paired_with_one_ready(stamps.drop_first(), nows.drop_first());
        assert(ready_observations(stamps, nows) =~= Seq::new(
            stamps.len(),
            |i: int| FrameObservation::Latency(latency_of(stamps[i], nows[i])),
        ));
        assert forall|extra: u64|
            ready_observations(stamps, nows.push(extra)).last()
                == FrameObservation::MissingRecord by {
            assert(nows.push(extra).drop_first() =~= nows.drop_first().push(extra));
            let rest = ready_observations(stamps.drop_first(), nows.drop_first().push(extra));
            assert(rest.len() > 0) by {
                lemma_observation_count(stamps.drop_first(), nows.drop_first().push(extra));
            }
            let head = seq![
                FrameObservation::Latency(latency_of(stamps[0], nows.push(extra)[0])),
            ];
            assert(ready_observations(stamps, nows.push(extra)) == head + rest);
            assert((head + rest).last() == rest.last());
        }
    }
}

proof fn lemma_observation_count(q: Seq<u64>, nows: Seq<u64>)
    ensures
        ready_observations(q, nows).len() == nows.len(),
    decreases nows.len(),
{
    if nows.len() > 0 {
        if q.len() == 0 {
            lemma_observation_count(q, nows.drop_first());
        } else {
            lemma_observation_count(q.drop_first(), nows.drop_first());
        }
    }
}

/// What a frame-ready callback produced.
#[derive(Clone, Copy, Debug, PartialEq, Eq, Structural)]
pub enum FrameObservation {
    /// A timing record was pending: the frame's latency in nanoseconds.
    Latency(u64),
    /// No timing record was pending: the submitter and the renderer are out
    /// of step. This is a warning, not an error.
    MissingRecord,
}

/// The outcome of one callback.
#[derive(Clone, Copy, Debug, PartialEq, Eq, Structural)]
pub struct FrameReady {
    pub observation: FrameObservation,
    /// Whether this latency sample is to be shown (verbose notifier, every
    /// `REPORT_INTERVAL` frames).
    pub report: bool,
    /// Whether the host's event loop is to be woken.
    pub wake: bool,
}

/// Handles the renderer's callbacks for one host.
pub struct Notifier {
    /// Whether there is an event loop to wake.
    pub has_window: bool,
    /// Frames counted since the last report, always below `REPORT_INTERVAL`.
    pub frames_notified: u32,
    pub verbose: bool,
}

impl Notifier {
    pub open spec fn wf(&self) -> bool {
        self.frames_notified < REPORT_INTERVAL
    }

    /// A notifier that wakes an event loop when `has_window` holds.
    pub fn new(has_window: bool, verbose: bool) -> (r: Notifier)
        ensures
            r.wf(),
            r.frames_notified == 0,
            r.has_window == has_window,
            r.verbose == verbose,
    {
        Notifier { has_window, frames_notified: 0, verbose }
    }

    /// One frame-ready callback, given what the timing channel yielded and the
    /// clock at the callback.
    pub fn on_frame_ready(&mut self, record: Option<u64>, now: u64) -> (r: FrameReady)
        requires
            old(self).wf(),
        ensures
            final(self).wf(),
            final(self).has_window == old(self).has_window,
            final(self).verbose == old(self).verbose,
            r.wake == old(self).has_window,
            match record {
                Some(sent) => {
                    &&& r.observation == FrameObservation::Latency(latency_of(sent, now))
                    &&& r.report == (old(self).verbose && old(self).frames_notified
                        + 1 == REPORT_INTERVAL)
                    &&& final(self).frames_notified == if old(self).frames_notified
                        + 1 == REPORT_INTERVAL {
                        0
                    } else {
                        (old(self).frames_notified + 1) as u32
                    }
                },
                None => {
                    &&& r.observation == FrameObservation::MissingRecord
                    &&& !r.report
                    &&& final(self).frames_notified == old(self).frames_notified
                },
            },
    {
        let wake = self.has_window;
        match record {
            Some(sent) => {
                let latency: u64 = if now >= sent {
                    now - sent
                } else {
                    0
                };
                self.frames_notified = self.frames_notified + 1;
                let report = self.verbose && self.frames_notified == REPORT_INTERVAL;
                if self.frames_notified == REPORT_INTERVAL {
                    self.frames_notified = 0;
                }
                FrameReady { observation: FrameObservation::Latency(latency), report, wake }
            },
            None => FrameReady { observation: FrameObservation::MissingRecord, report: false, wake },
        }
    }

    /// The frame-ready callback: takes the oldest timing record off the
    /// channel and reads the clock.
    pub fn new_frame_ready(&mut self, channel: &mut TimingChannel) -> (r: FrameReady)
        requires
            old(self).wf(),
        ensures
            final(self).wf(),
            r.wake == old(self).has_window,
            final(self).has_window == old(self).has_window,
            final(self).verbose == old(self).verbose,
            pending(*old(channel)).len() > 0 ==> {
                &&& pending(*final(channel)) == pending(*old(channel)).drop_first()
                &&& r.report == (old(self).verbose && old(self).frames_notified + 1
                    == REPORT_INTERVAL)
                &&& final(self).frames_notified == if old(self).frames_notified + 1
                    == REPORT_INTERVAL {
                    0
                } else {
                    (old(self).frames_notified + 1) as u32
                }
                &&& exists|now: u64|
                    r.observation == FrameObservation::Latency(
                        latency_of(pending(*old(channel))[0], now),
                    )
            },
            pending(*old(channel)).len() == 0 ==> {
                &&& pending(*final(channel)) == pending(*old(channel))
                &&& r.observation == FrameObservation::MissingRecord
                &&& !r.report
                &&& final(self).frames_notified == old(self).frames_notified
            },
    {
        let record = channel.pop();
        let now = now_ns();
        self.on_frame_ready(record, now)
    }

    /// The scroll-frame-ready callback: wakes the event loop and leaves the
    /// timing records alone, whether or not a composite is needed.
    pub fn new_scroll_frame_ready(&self, composite_needed: bool) -> (wake: bool)
        ensures
            wake == self.has_window,
    {
        self.has_window
    }

    /// The renderer's report of a pipeline's new size: nothing to do here,
    /// neither for timing nor for waking.
    pub fn pipeline_size_changed(&self, pipeline_id: PipelineId, size: Option<DeviceSize>) {
    }
}

} // verus!
