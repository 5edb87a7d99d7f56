//! The laws the orchestration obeys, proved over the model transitions of
//! [`crate::orchestrator`].
//!
//! Each proof function states one law for every state, every report and every
//! ceiling at once; the contracts of the orchestrator's methods tie the
//! running code to the same transitions.

use vstd::prelude::*;

use crate::events::{LaunchStep, PassOutcome, PoolPoll, SourcePoll};
use crate::orchestrator::{
    fresh_model, harvest_next, harvest_outcome, launch_directive, launch_next,
    pool_report_consistent, OrchModel,
};

verus! {

/// Law (ceiling respected): with a bounded ceiling `n`, no pass lifts the
/// in-flight count above `n` — neither its launch step nor its harvest step.
pub proof fn lemma_ceiling_respected<T, E>(
    m: OrchModel,
    sev: SourcePoll<T, E>,
    pev: PoolPoll<E>,
    n: nat,
)
    requires
        m.wf(),
        m.ceiling == Some(n),
        pool_report_consistent(launch_next(m, sev), pev),
    ensures
        launch_next(m, sev).in_flight <= n,
        harvest_next(launch_next(m, sev), pev).in_flight <= n,
{
}

/// Law (every step keeps the books): both steps preserve the bookkeeping
/// invariant, so the ledger `launched == completed + discarded + in_flight`
/// and the ceiling bound hold at every observed state.
pub proof fn lemma_steps_preserve_wf<T, E>(m: OrchModel, sev: SourcePoll<T, E>, pev: PoolPoll<E>)
    requires
        m.wf(),
        pool_report_consistent(launch_next(m, sev), pev),
    ensures
        launch_next(m, sev).wf(),
        harvest_next(launch_next(m, sev), pev).wf(),
{
}

/// Law (zero means unbounded): an orchestrator built with a ceiling of zero
/// starts in exactly the state of one built with no ceiling at all.
pub proof fn lemma_zero_ceiling_is_unbounded()
    ensures
        fresh_model(Some(0usize)) == fresh_model(None::<usize>),
{
}

/// Law (no artificial throttling): without a ceiling, the launch step is
/// willing to pull exactly as long as the source is open, whatever is in
/// flight.
pub proof fn lemma_unbounded_never_throttles(m: OrchModel)
    requires
        m.ceiling is None,
    ensures
        m.may_launch() == m.source_open,
{
}

/// Law (launched as pulled): whenever the launch step may pull and the
/// source yields an item, the directive hands back that very item, at once,
/// and the launch is counted — items flow into units in source order, one
/// per pass.
pub proof fn lemma_item_launched_as_pulled<T, E>(m: OrchModel, x: T)
    requires
        m.may_launch(),
    ensures
        launch_directive::<T, E>(m, SourcePoll::Item(x)) == LaunchStep::<T, E>::Launch(x),
        launch_next::<T, E>(m, SourcePoll::Item(x)).launched == m.launched + 1,
        launch_next::<T, E>(m, SourcePoll::Item(x)).in_flight == m.in_flight + 1,
{
}

/// Law (success accounts for every unit): when a harvest step finishes with
/// success, every unit ever launched has been harvested or — only after an
/// earlier abort — discarded; in a run that never discarded anything, every
/// launched unit completed successfully, in whatever order the pool reported.
pub proof fn lemma_success_accounts_for_every_unit<E>(m: OrchModel, ev: PoolPoll<E>)
    requires
        m.wf(),
        pool_report_consistent(m, ev),
        harvest_outcome(m, ev) == PassOutcome::<E>::Finished(Ok::<(), E>(())),
    ensures
        harvest_next(m, ev).completed + harvest_next(m, ev).discarded == harvest_next(
            m,
            ev,
        ).launched,
        m.discarded == 0 ==> harvest_next(m, ev).completed == harvest_next(m, ev).launched,
{
}

/// Law (work is discarded only on an error): a launch step discards units
/// only when it answers `Abort`, and a harvest step only when it finishes
/// with an error.
pub proof fn lemma_discard_only_on_error<T, E>(
    m: OrchModel,
    sev: SourcePoll<T, E>,
    pev: PoolPoll<E>,
)
    requires
        m.wf(),
    ensures
        launch_next(m, sev).discarded > m.discarded ==> launch_directive(m, sev) matches LaunchStep::Abort(_),
        harvest_next(m, pev).discarded > m.discarded ==> (harvest_outcome(m, pev) matches PassOutcome::Finished(r) && r is Err),
{
}

/// Law (fail-fast on a source error): when the launch step may pull and the
/// source fails, the step aborts with that very error, the state is terminal
/// on the spot — no waiting for pending units — and no further item is ever
/// pulled.
pub proof fn lemma_source_error_fails_fast<T, E>(m: OrchModel, e: E)
    requires
        m.wf(),
        m.may_launch(),
    ensures
        launch_directive::<T, E>(m, SourcePoll::Failed(e)) == LaunchStep::<T, E>::Abort(e),
        launch_next::<T, E>(m, SourcePoll::Failed(e)).is_terminal(),
        !launch_next::<T, E>(m, SourcePoll::Failed(e)).may_launch(),
        launch_next::<T, E>(m, SourcePoll::Failed(e)).discarded == m.discarded + m.in_flight,
{
}

/// Law (fail-fast on a unit error): when any in-flight unit resolves with an
/// error, the harvest step finishes with that very error, the state is
/// terminal on the spot, and every other in-flight unit is discarded along
/// with the rest of the source.
pub proof fn lemma_unit_error_fails_fast<E>(m: OrchModel, e: E)
    requires
        m.wf(),
        m.in_flight >= 1,
    ensures
        harvest_outcome(m, PoolPoll::UnitFailed(e)) == PassOutcome::<E>::Finished(Err(e)),
        harvest_next(m, PoolPoll::UnitFailed(e)).is_terminal(),
        !harvest_next(m, PoolPoll::UnitFailed(e)).may_launch(),
        harvest_next(m, PoolPoll::UnitFailed(e)).discarded == m.discarded + m.in_flight,
{
}

/// Law (an empty source finishes the very first pass): from a fresh state,
/// whatever the requested ceiling, a source that reports its end and a pool
/// that reports itself empty finish the orchestration successfully on the
/// first pass, with no unit ever launched.
pub proof fn lemma_empty_source_finishes_first_pass<T, E>(ceiling: Option<usize>)
    ensures
        ({
            let started = launch_next::<T, E>(fresh_model(ceiling), SourcePoll::End);
            &&& launch_directive::<T, E>(fresh_model(ceiling), SourcePoll::End)
                == LaunchStep::<T, E>::NoLaunch
            &&& harvest_outcome::<E>(started, PoolPoll::Empty) == PassOutcome::<E>::Finished(
                Ok::<(), E>(()),
            )
            &&& started.launched == 0
            &&& harvest_next::<E>(started, PoolPoll::Empty).is_terminal()
        }),
{
}

/// Law (the terminal state is stable): once terminal, a state stays terminal
/// through any further pass whose pool report is consistent with an empty
/// pool, and such a pass can only finish with success again or suspend — it
/// never launches, harvests or errs.
pub proof fn lemma_terminal_is_stable<T, E>(m: OrchModel, sev: SourcePoll<T, E>, pev: PoolPoll<E>)
    requires
        m.wf(),
        m.is_terminal(),
        pool_report_consistent(launch_next(m, sev), pev),
    ensures
        launch_next(m, sev) == m,
        harvest_next(launch_next(m, sev), pev).is_terminal(),
        harvest_outcome::<E>(launch_next(m, sev), pev) matches PassOutcome::Finished(r) ==> r
            == Ok::<(), E>(()),
{
}

} // verus!
