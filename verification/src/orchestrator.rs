//! The orchestrator: a verified decision core driven one pass at a time.
//!
//! Each pass has two steps, mirroring the driving loop:
//!
//! 1. *Launch step*: when [`TryForEachConcurrent::should_poll_source`] says
//!    so, the driver polls the source and hands the report to
//!    [`TryForEachConcurrent::launch_step`], which answers with the item to
//!    launch, with nothing, or with an abort.
//! 2. *Harvest step*: the driver polls the completion pool and hands the
//!    report to [`TryForEachConcurrent::harvest_step`], which answers whether
//!    to run another pass, to suspend, or that the orchestration is finished.
//!
//! The whole state is mirrored by the mathematical model [`OrchModel`]; every
//! method's contract says exactly which model the new state is and which
//! answer is returned, via the spec-level transition functions below.

use vstd::prelude::*;

use crate::events::{LaunchStep, PassOutcome, PoolPoll, SourcePoll};

verus! {

/// The mathematical state of one orchestration.
///
/// Besides the three fields the running code keeps (`source_open`,
/// `in_flight`, `ceiling`) and the per-pass `progress` flag, the model carries
/// a ledger of every unit ever launched: `completed` counts the units
/// harvested with success, `discarded` the units dropped unfinished when an
/// error aborted the orchestration, and the rest are still in flight.
pub ghost struct OrchModel {
    /// Whether the source may still yield items. Once false, it stays false.
    pub source_open: bool,
    /// How many launched units the completion pool currently holds.
    pub in_flight: nat,
    /// The concurrency ceiling; `None` means unbounded.
    pub ceiling: Option<nat>,
    /// How many units were ever launched.
    pub launched: nat,
    /// How many units completed successfully and were harvested.
    pub completed: nat,
    /// How many units were discarded unfinished because an error aborted the
    /// orchestration.
    pub discarded: nat,
    /// Whether the current pass has made progress so far.
    pub progress: bool,
}

impl OrchModel {
    /// The bookkeeping invariant: the ceiling is positive and respected, and
    /// every launched unit is accounted for exactly once.
    pub open spec fn wf(self) -> bool {
        &&& (self.ceiling matches Some(n) ==> n >= 1)
        &&& (self.ceiling matches Some(n) ==> self.in_flight <= n)
        &&& self.launched == self.completed + self.discarded + self.in_flight
    }

    /// Whether the launch step may pull another item: the source is still
    /// open and the in-flight count is strictly below the ceiling.
    pub open spec fn may_launch(self) -> bool {
        self.source_open && (self.ceiling matches Some(n) ==> self.in_flight < n)
    }

    /// Terminal state: the source is gone and no unit is in flight.
    pub open spec fn is_terminal(self) -> bool {
        !self.source_open && self.in_flight == 0
    }
}

/// A stored ceiling as the model sees it.
pub open spec fn ceiling_as_model(ceiling: Option<usize>) -> Option<nat> {
    match ceiling {
        Some(n) => Some(n as nat),
        None => None,
    }
}

/// The ceiling a caller asked for, normalized: zero means "no limit at all",
/// not "never run".
pub open spec fn normalized_ceiling(ceiling: Option<usize>) -> Option<nat> {
    match ceiling {
        Some(n) => if n == 0 {
            None
        } else {
            Some(n as nat)
        },
        None => None,
    }
}

/// The state a fresh orchestrator starts in.
pub open spec fn fresh_model(ceiling: Option<usize>) -> OrchModel {
    OrchModel {
        source_open: true,
        in_flight: 0,
        ceiling: normalized_ceiling(ceiling),
        launched: 0,
        completed: 0,
        discarded: 0,
        progress: false,
    }
}

/// The state after the launch step consumes one source report. When the step
/// may not pull (source closed or ceiling reached), the report is ignored and
/// nothing changes.
pub open spec fn launch_next<T, E>(m: OrchModel, ev: SourcePoll<T, E>) -> OrchModel {
    if m.may_launch() {
        match ev {
            SourcePoll::Pending => m,
            SourcePoll::Item(_) => OrchModel {
                in_flight: m.in_flight + 1,
                launched: m.launched + 1,
                progress: true,
                ..m
            },
            SourcePoll::End => OrchModel { source_open: false, ..m },
            SourcePoll::Failed(_) => OrchModel {
                source_open: false,
                in_flight: 0,
                discarded: m.discarded + m.in_flight,
                ..m
            },
        }
    } else {
        m
    }
}

/// What the launch step tells the driver for one source report.
pub open spec fn launch_directive<T, E>(m: OrchModel, ev: SourcePoll<T, E>) -> LaunchStep<T, E> {
    if m.may_launch() {
        match ev {
            SourcePoll::Pending => LaunchStep::NoLaunch,
            SourcePoll::Item(x) => LaunchStep::Launch(x),
            SourcePoll::End => LaunchStep::NoLaunch,
            SourcePoll::Failed(e) => LaunchStep::Abort(e),
        }
    } else {
        LaunchStep::NoLaunch
    }
}

/// Whether a pool report is possible for a pool holding `m.in_flight` units:
/// a completion can only come out of a non-empty pool, and `Empty` means
/// exactly none are in flight. The driver keeps the orchestrator's in-flight
/// count equal to the pool's length, so every report of a pool that honours
/// its contract satisfies this.
pub open spec fn pool_report_consistent<E>(m: OrchModel, ev: PoolPoll<E>) -> bool {
    &&& (ev matches PoolPoll::UnitDone ==> m.in_flight >= 1)
    &&& (ev matches PoolPoll::UnitFailed(_) ==> m.in_flight >= 1)
    &&& (ev matches PoolPoll::Empty ==> m.in_flight == 0)
}

/// The state after the harvest step consumes one pool report. The pass ends
/// here, so the progress flag is reset whatever happened.
pub open spec fn harvest_next<E>(m: OrchModel, ev: PoolPoll<E>) -> OrchModel {
    let stepped = match ev {
        PoolPoll::Pending => m,
        PoolPoll::Empty => m,
        PoolPoll::UnitDone => OrchModel {
            in_flight: (m.in_flight - 1) as nat,
            completed: m.completed + 1,
            ..m
        },
        PoolPoll::UnitFailed(_) => OrchModel {
            source_open: false,
            in_flight: 0,
            discarded: m.discarded + m.in_flight,
            ..m
        },
    };
    OrchModel { progress: false, ..stepped }
}

/// What the pass decided, given the pool report that ended it: an error
/// finishes with that error; an empty pool after an exhausted source finishes
/// with success; otherwise the pass continues if it made progress and
/// suspends if it did not.
pub open spec fn harvest_outcome<E>(m: OrchModel, ev: PoolPoll<E>) -> PassOutcome<E> {
    match ev {
        PoolPoll::Pending => if m.progress {
            PassOutcome::Continue
        } else {
            PassOutcome::Suspend
        },
        PoolPoll::Empty => if !m.source_open {
            PassOutcome::Finished(Ok(()))
        } else if m.progress {
            PassOutcome::Continue
        } else {
            PassOutcome::Suspend
        },
        PoolPoll::UnitDone => PassOutcome::Continue,
        PoolPoll::UnitFailed(e) => PassOutcome::Finished(Err(e)),
    }
}

/// The orchestration core: drives a fallible unit of work for every item of a
/// fallible source, at most `ceiling` units in flight at once, failing fast
/// on the first error from either side.
///
/// The orchestrator holds only the decision state; the source, the units and
/// the pool live with the driver, which polls them and reports back through
/// [`Self::launch_step`] and [`Self::harvest_step`].
pub struct TryForEachConcurrent {
    source_open: bool,
    in_flight: usize,
    limit: Option<usize>,
    launched: Ghost<nat>,
    completed: Ghost<nat>,
    discarded: Ghost<nat>,
    progress: bool,
}

impl View for TryForEachConcurrent {
    type V = OrchModel;

    closed spec fn view(&self) -> OrchModel {
        OrchModel {
            source_open: self.source_open,
            in_flight: self.in_flight as nat,
            ceiling: ceiling_as_model(self.limit),
            launched: self.launched@,
            completed: self.completed@,
            discarded: self.discarded@,
            progress: self.progress,
        }
    }
}

impl TryForEachConcurrent {
    /// A fresh orchestrator: source open, pool empty, nothing launched yet.
    /// A ceiling of zero is normalized to "unbounded".
    pub fn new(ceiling: Option<usize>) -> (orch: Self)
        ensures
            orch@ == fresh_model(ceiling),
            orch@.wf(),
    {
        let limit = match ceiling {
            Some(n) => if n == 0 {
                None
            } else {
                Some(n)
            },
            None => None,
        };
        TryForEachConcurrent {
            source_open: true,
            in_flight: 0,
            limit,
            launched: Ghost(0),
            completed: Ghost(0),
            discarded: Ghost(0),
            progress: false,
        }
    }

    /// Whether the orchestration has reached its terminal state. Usable
    /// before the first pass, and stays true once it turns true.
    pub fn is_terminated(&self) -> (r: bool)
        ensures
            r == self@.is_terminal(),
    {
        !self.source_open && self.in_flight == 0
    }

    /// Whether the driver should poll the source on this pass: only while the
    /// source is still open and the in-flight count is strictly below the
    /// ceiling. When this is false the driver passes `SourcePoll::Pending`
    /// (or anything else: the launch step ignores the report then).
    pub fn should_poll_source(&self) -> (r: bool)
        ensures
            r == self@.may_launch(),
    {
        self.source_open && (match self.limit {
            Some(n) => self.in_flight < n,
            None => true,
        })
    }

    /// How many units the orchestrator counts as in flight; the driver keeps
    /// this equal to the pool's length.
    pub fn in_flight(&self) -> (n: usize)
        ensures
            n == self@.in_flight,
    {
        self.in_flight
    }

    /// The normalized ceiling this orchestrator was built with; `None` means
    /// unbounded.
    pub fn limit(&self) -> (c: Option<usize>)
        ensures
            ceiling_as_model(c) == self@.ceiling,
    {
        self.limit
    }

    /// The launch step: consume one source report.
    ///
    /// An item is answered with `Launch` — the driver must turn it into a
    /// unit and push that unit into the pool, which is what the incremented
    /// in-flight count already records. The end of the source closes it. A
    /// source error aborts the whole orchestration: the source is closed, all
    /// in-flight units are discarded, and the driver must report the error
    /// without harvesting anything further.
    ///
    /// The in-flight bound below is a machine limit: one more launched unit
    /// must still be countable.
    pub fn launch_step<T, E>(&mut self, ev: SourcePoll<T, E>) -> (step: LaunchStep<T, E>)
        requires
            old(self)@.wf(),
            old(self)@.in_flight < usize::MAX,
        ensures
            final(self)@ == launch_next(old(self)@, ev),
            final(self)@.wf(),
            step == launch_directive(old(self)@, ev),
    {
        if !self.should_poll_source() {
            return LaunchStep::NoLaunch;
        }
        match ev {
            SourcePoll::Pending => LaunchStep::NoLaunch,
            SourcePoll::Item(x) => {
                self.in_flight = self.in_flight + 1;
                self.launched = Ghost(self.launched@ + 1);
                self.progress = true;
                LaunchStep::Launch(x)
            },
            SourcePoll::End => {
                self.source_open = false;
                LaunchStep::NoLaunch
            },
            SourcePoll::Failed(e) => {
                self.source_open = false;
                self.discarded = Ghost(self.discarded@ + self.in_flight as nat);
                self.in_flight = 0;
                LaunchStep::Abort(e)
            },
        }
    }

    /// The harvest step: consume one pool report and end the pass.
    ///
    /// A successful completion is progress; an empty pool after an exhausted
    /// source finishes the orchestration with success; a unit error aborts it
    /// — the source is closed and every other in-flight unit is discarded.
    /// When nothing finished the pass, the outcome says whether to run
    /// another pass (some step of this one made progress) or to suspend until
    /// a collaborator signals readiness.
    pub fn harvest_step<E>(&mut self, ev: PoolPoll<E>) -> (outcome: PassOutcome<E>)
        requires
            old(self)@.wf(),
            pool_report_consistent(old(self)@, ev),
        ensures
            final(self)@ == harvest_next(old(self)@, ev),
            final(self)@.wf(),
            outcome == harvest_outcome(old(self)@, ev),
    {
        let outcome = match ev {
            PoolPoll::Pending => if self.progress {
                PassOutcome::Continue
            } else {
                PassOutcome::Suspend
            },
            PoolPoll::Empty => if !self.source_open {
                PassOutcome::Finished(Ok(()))
            } else if self.progress {
                PassOutcome::Continue
            } else {
                PassOutcome::Suspend
            },
            PoolPoll::UnitDone => {
                self.in_flight = self.in_flight - 1;
                self.completed = Ghost(self.completed@ + 1);
                PassOutcome::Continue
            },
            PoolPoll::UnitFailed(e) => {
                self.source_open = false;
                self.discarded = Ghost(self.discarded@ + self.in_flight as nat);
                self.in_flight = 0;
                PassOutcome::Finished(Err(e))
            },
        };
        self.progress = false;
        outcome
    }
}

} // verus!
