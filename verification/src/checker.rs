//! The periodic check of a flow: restart a pipeline that is at rest, and
//! find one that no longer makes progress.

use vstd::prelude::*;

verus! {

/// Number of checks without progress after which a flow counts as stuck
pub const PTS_CHECK_TRIES: usize = 5;

/// The state that a pipeline or stage reports.
#[derive(Clone, Copy, Debug, PartialEq, Eq, Structural)]
pub enum State {
    VoidPending,
    Null,
    Ready,
    Paused,
    Playing,
}

/// What a check reads from the sink of a pipeline.
#[derive(Clone, Copy, Debug, PartialEq, Eq, Structural)]
pub enum Sample {
    /// The presentation time stamp of the last sample, where it has one
    Pts(Option<u64>),
    /// The last sample holds no buffer
    NoBuffer,
    /// The sink holds no sample yet
    Missing,
    /// The sink could not be read
    Failed,
}

/// What a check does after it has looked at the pipeline.
#[derive(Clone, Copy, Debug, PartialEq, Eq, Structural)]
pub enum CheckAction {
    /// The pipeline is gone: end the checks
    Halt,
    /// The pipeline is at rest: set it playing again, and check again later
    Restart,
    /// Ask for a statistics snapshot, then look at the sink
    Probe,
}

/// What a check does after it has looked at the sink.
#[derive(Clone, Copy, Debug, PartialEq, Eq, Structural)]
pub enum SinkAction {
    /// The sink is gone: end the checks
    Halt,
    /// The flow makes progress, or may yet: check again later
    Continue,
    /// The flow is stuck: post an end of stream on behalf of the sink, and
    /// check again later if that could be posted
    PostEos,
}

/// Periodic flow checker
#[derive(Clone, Copy, Debug, PartialEq, Eq, Structural)]
pub struct FlowChecker {
    /// Index of flow
    idx: usize,
    /// Count of checks since the flow was last restarted
    count: usize,
    /// Count of checks in a row that read the time stamp of the check
    /// before them
    unchanged: usize,
    /// Most recent presentation time stamp
    last_pts: Option<u64>,
}

/// What a flow checker holds, as plain values.
pub struct FlowCheckerView {
    pub idx: usize,
    pub count: usize,
    pub unchanged: usize,
    pub last_pts: Option<u64>,
}

impl View for FlowChecker {
    type V = FlowCheckerView;

    closed spec fn view(&self) -> FlowCheckerView {
        FlowCheckerView {
            idx: self.idx,
            count: self.count,
            unchanged: self.unchanged,
            last_pts: self.last_pts,
        }
    }
}

/// One more than a count, as far as the count can go.
pub open spec fn one_more(count: usize) -> usize {
    if count < usize::MAX {
        (count + 1) as usize
    } else {
        count
    }
}

impl FlowCheckerView {
    /// The checker of a flow that has not been checked yet.
    pub open spec fn start(idx: usize) -> FlowCheckerView {
        FlowCheckerView { idx, count: 0, unchanged: 0, last_pts: None }
    }

    /// The checker with one more check counted.
    pub open spec fn counted(self) -> FlowCheckerView {
        FlowCheckerView { count: one_more(self.count), ..self }
    }

    /// A check of the pipeline: the check is counted; a pipeline at rest is
    /// restarted, and both counts begin anew.
    pub open spec fn do_check(self, pipeline: Option<State>) -> (FlowCheckerView, CheckAction) {
        match pipeline {
            None => (self.counted(), CheckAction::Halt),
            Some(State::Null) => (
                FlowCheckerView { count: 0, unchanged: 0, ..self },
                CheckAction::Restart,
            ),
            Some(_) => (self.counted(), CheckAction::Probe),
        }
    }

    /// A look at the sink. A time stamp other than the last one is progress:
    /// it is kept, and the count of unchanged time stamps begins anew. A time
    /// stamp that is the last one again is counted, and the flow is stuck
    /// when this is the `PTS_CHECK_TRIES`th in a row. Where no sample can be
    /// read, the flow is stuck when it has been checked more than
    /// `PTS_CHECK_TRIES` times since it was last restarted; the count of
    /// unchanged time stamps stays as it is.
    pub open spec fn is_stuck(self, sample: Sample) -> (FlowCheckerView, bool) {
        match sample {
            Sample::Pts(pts) => if pts == self.last_pts {
                (
                    FlowCheckerView { unchanged: one_more(self.unchanged), ..self },
                    one_more(self.unchanged) >= PTS_CHECK_TRIES,
                )
            } else {
                (FlowCheckerView { unchanged: 0, last_pts: pts, ..self }, false)
            },
            _ => (self, self.count > PTS_CHECK_TRIES),
        }
    }

    /// What follows from a look at the sink, if it is still there.
    pub open spec fn check_sink(self, sink: Option<Sample>) -> (FlowCheckerView, SinkAction) {
        match sink {
            None => (self, SinkAction::Halt),
            Some(sample) => (
                self.is_stuck(sample).0,
                if self.is_stuck(sample).1 {
                    SinkAction::PostEos
                } else {
                    SinkAction::Continue
                },
            ),
        }
    }

    /// One whole check of a pipeline that plays: it is counted, and the sink
    /// is looked at.
    pub open spec fn tick(self, sample: Sample) -> (FlowCheckerView, SinkAction) {
        self.do_check(Some(State::Playing)).0.check_sink(Some(sample))
    }

    /// The checker after `n` whole checks that all read the time stamp
    /// `pts`.
    pub open spec fn after(self, n: nat, pts: Option<u64>) -> FlowCheckerView
        decreases n,
    {
        if n == 0 {
            self
        } else {
            self.after((n - 1) as nat, pts).tick(Sample::Pts(pts)).0
        }
    }
}

/// Checks that read the same time stamp over and over are counted one by
/// one.
pub proof fn lemma_count_of_unchanged(c: FlowCheckerView, n: nat, pts: Option<u64>)
    requires
        c.last_pts == pts,
        c.unchanged + n <= usize::MAX,
    ensures
        c.after(n, pts).unchanged == c.unchanged + n,
        c.after(n, pts).last_pts == pts,
        c.after(n, pts).idx == c.idx,
    decreases n,
{
    if n > 0 {
        lemma_count_of_unchanged(c, (n - 1) as nat, pts);
    }
}

/// After a check that saw progress, the flow is found stuck at the check
/// that reads the same time stamp for the `PTS_CHECK_TRIES`th time in a row,
/// and at no check before it.
pub proof fn lemma_stuck_after_tries(c: FlowCheckerView, n: nat, pts: Option<u64>)
    requires
        c.last_pts == pts,
        c.unchanged == 0,
        n < usize::MAX,
    ensures
        c.after(n, pts).tick(Sample::Pts(pts)).1 == (if n + 1 >= PTS_CHECK_TRIES {
            SinkAction::PostEos
        } else {
            SinkAction::Continue
        }),
{
    lemma_count_of_unchanged(c, n, pts);
}

/// The two counts go their own ways. A time stamp, new or not, leaves the
/// count of checks since the last restart as it is, so that a check that
/// finds no sample to read is judged by all the checks since then. And such
/// a check leaves the count of unchanged time stamps as it is.
pub proof fn lemma_counts_apart(c: FlowCheckerView, pts: Option<u64>, sample: Sample)
    requires
        !(sample is Pts),
    ensures
        c.tick(Sample::Pts(pts)).0.count == one_more(c.count),
        c.tick(sample).0.unchanged == c.unchanged,
        c.tick(sample).0.last_pts == c.last_pts,
        c.tick(Sample::Pts(pts)).0.tick(sample).1 == (if one_more(one_more(c.count))
            > PTS_CHECK_TRIES {
            SinkAction::PostEos
        } else {
            SinkAction::Continue
        }),
{
}

impl FlowChecker {
    /// Create a new periodic flow checker
    pub fn new(idx: usize) -> (r: Self)
        ensures
            r@ == FlowCheckerView::start(idx),
    {
        FlowChecker { idx, count: 0, unchanged: 0, last_pts: None }
    }

    /// Get the index of the flow
    pub fn idx(&self) -> (r: usize)
        ensures
            r == self@.idx,
    {
        self.idx
    }

    /// Get the count of checks since the last restart
    pub fn count(&self) -> (r: usize)
        ensures
            r == self@.count,
    {
        self.count
    }

    /// Get the count of checks in a row that read an unchanged time stamp
    pub fn unchanged(&self) -> (r: usize)
        ensures
            r == self@.unchanged,
    {
        self.unchanged
    }

    /// Do periodic flow checks
    pub fn do_check(&mut self, pipeline: Option<State>) -> (r: CheckAction)
        ensures
            (final(self)@, r) == old(self)@.do_check(pipeline),
    {
        if self.count < usize::MAX {
            self.count += 1;
        }
        match pipeline {
            Some(state) => {
                if Self::check_stopped(state) {
                    self.count = 0;
                    self.unchanged = 0;
                    CheckAction::Restart
                } else {
                    CheckAction::Probe
                }
            },
            None => CheckAction::Halt,
        }
    }

    /// Check if pipeline is stopped, and must be restarted
    pub fn check_stopped(state: State) -> (r: bool)
        ensures
            r == (state == State::Null),
    {
        match state {
            State::Null => true,
            _ => false,
        }
    }

    /// Check sink in a pipeline
    pub fn check_sink(&mut self, sink: Option<Sample>) -> (r: SinkAction)
        ensures
            (final(self)@, r) == old(self)@.check_sink(sink),
    {
        match sink {
            Some(sample) => {
                if self.is_stuck(sample) {
                    SinkAction::PostEos
                } else {
                    SinkAction::Continue
                }
            },
            None => SinkAction::Halt,
        }
    }

    /// Check sink to make sure that last-sample is updating.
    pub fn is_stuck(&mut self, sample: Sample) -> (r: bool)
        ensures
            (final(self)@, r) == old(self)@.is_stuck(sample),
    {
        match sample {
            Sample::Pts(pts) => {
                let unchanged = match (pts, self.last_pts) {
                    (Some(a), Some(b)) => a == b,
                    (None, None) => true,
                    _ => false,
                };
                if unchanged {
                    if self.unchanged < usize::MAX {
                        self.unchanged += 1;
                    }
                    self.unchanged >= PTS_CHECK_TRIES
                } else {
                    self.last_pts = pts;
                    self.unchanged = 0;
                    false
                }
            },
            _ => self.count > PTS_CHECK_TRIES,
        }
    }
}

} // verus!
