//! An orchestration core for concurrent, fail-fast processing of a fallible
//! sequence of items.
//!
//! Given a source that yields `Result<Item, Error>` values one at a time, a
//! factory that turns each item into an independent non-blocking unit of work,
//! and a pool that holds in-flight units and reports completions in arbitrary
//! order, the orchestrator drives up to a bounded number of units
//! concurrently, stops at the first error from the source or from any unit,
//! and otherwise finishes only once the source is exhausted and every launched
//! unit has completed.
//!
//! The source, the units and the pool are external collaborators that are
//! polled by an embedding driver (an executor, an event loop); this crate
//! holds the decision core that the driver consults on every pass: whether to
//! pull another item, what to do with each poll report, and when the whole
//! orchestration is finished. Every decision is verified against the
//! mathematical model in [`orchestrator`], and the laws the orchestration
//! obeys are proved in [`laws`].

pub mod events;
pub mod laws;
pub mod orchestrator;
