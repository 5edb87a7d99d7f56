//! The reports the driver hands to the orchestrator, and the instructions it
//! gets back.
//!
//! On every pass the driver polls the source (when asked to) and the
//! completion pool, translates what they reported into a [`SourcePoll`] and a
//! [`PoolPoll`], and feeds both to the orchestrator. The orchestrator answers
//! with a [`LaunchStep`] and a [`PassOutcome`] that tell the driver what to do
//! next.

use vstd::prelude::*;

verus! {

/// What one non-blocking poll of the source reported.
#[derive(Debug)]
pub enum SourcePoll<T, E> {
    /// The source has nothing ready yet.
    Pending,
    /// The source yielded its next item.
    Item(T),
    /// The source is exhausted and will never yield again.
    End,
    /// The source failed with an error.
    Failed(E),
}

/// What one non-blocking poll of the completion pool reported.
#[derive(Debug)]
pub enum PoolPoll<E> {
    /// No in-flight unit is ready yet.
    Pending,
    /// Some in-flight unit completed successfully and left the pool.
    UnitDone,
    /// The pool holds no in-flight units at all.
    Empty,
    /// Some in-flight unit completed with an error and left the pool.
    UnitFailed(E),
}

/// What the launch step tells the driver to do.
#[derive(Debug)]
pub enum LaunchStep<T, E> {
    /// Turn this item into a unit of work and push that unit into the pool.
    Launch(T),
    /// Nothing to launch on this pass.
    NoLaunch,
    /// The source failed: every in-flight unit is discarded and the
    /// orchestration is over; report this error.
    Abort(E),
}

/// What a whole pass decided.
#[derive(Debug)]
pub enum PassOutcome<E> {
    /// Progress was made: run another pass at once.
    Continue,
    /// No progress was made: suspend until the source or some in-flight unit
    /// signals readiness.
    Suspend,
    /// The orchestration reached its terminal state with this result.
    Finished(Result<(), E>),
}

} // verus!
