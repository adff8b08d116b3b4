//! What holds of routing, reporting and the updater's life, whatever the
//! bindings, the updates and the retrievals are.

use vstd::prelude::*;

use crate::dispatcher::dispatch::{
    dispatched_all_as, dispatched_as, lemma_selection_is_unique, selection, selects, Dispatched,
};
use crate::dispatcher::filter::Filter;
use crate::dispatcher::handler::{Handler, HandlerError};
use crate::dispatcher::registry::Binding;
use crate::dispatcher::report::{Event, RetrievalError, StopReason};
use crate::dispatcher::update::Update;
use crate::dispatcher::updater::{highest_id, Action, Input, Phase, UpdaterView};

verus! {

/// Order decides: when two bindings accept an update, the one registered
/// later is never the one picked.
pub proof fn lemma_earlier_binding_wins<F: Filter<Update>, H>(
    bindings: Seq<Binding<F, H>>,
    update: &Update,
    earlier: int,
    later: int,
    choice: Option<int>,
)
    requires
        0 <= earlier < later < bindings.len(),
        bindings[earlier].filter.accepts(update),
        bindings[later].filter.accepts(update),
        selects(bindings, update, choice),
    ensures
        choice matches Some(picked) && picked <= earlier,
        choice != Some(later),
{
    match choice {
        Some(picked) => {
            if earlier < picked {
                assert(!bindings[earlier].filter.accepts(update));
            }
        },
        None => {
            assert(!bindings[earlier].filter.accepts(update));
        },
    }
}

/// Of two bindings that both accept an update, registered one after the
/// other in an empty registry, the first is picked.
pub proof fn lemma_first_of_two_wins<F: Filter<Update>, H>(
    first: Binding<F, H>,
    second: Binding<F, H>,
    update: &Update,
    choice: Option<int>,
)
    requires
        first.filter.accepts(update),
        second.filter.accepts(update),
        selects(Seq::<Binding<F, H>>::empty().push(first).push(second), update, choice),
    ensures
        choice == Some(0int),
{
    let bindings = Seq::<Binding<F, H>>::empty().push(first).push(second);
    assert(bindings[0] == first);
    assert(bindings[1] == second);
    lemma_earlier_binding_wins(bindings, update, 0, 1, choice);
}

/// An update that no binding accepts runs no handler and is reported
/// exactly once, as unhandled.
pub proof fn lemma_unmatched_is_reported_once<F: Filter<Update>, H: Handler<Update>>(
    bindings: Seq<Binding<F, H>>,
    update: Update,
    result: Dispatched,
)
    requires
        forall|i: int| 0 <= i < bindings.len() ==> !(#[trigger] bindings[i]).filter.accepts(&update),
        dispatched_as(bindings, update, result),
    ensures
        result == (Dispatched::Unhandled { update }),
        result.binding() is None,
        Event::reported_all(seq![result]) == seq![Event::Unhandled { update }],
{
    match result.binding() {
        Some(i) => {
            assert(bindings[i].filter.accepts(&update));
        },
        None => {},
    }
    crate::dispatcher::report::lemma_one_report_per_result(result);
}

/// An update that some binding accepts is never reported as unhandled: the
/// handler of the first binding that accepts it runs.
pub proof fn lemma_matched_is_handled<F: Filter<Update>, H: Handler<Update>>(
    bindings: Seq<Binding<F, H>>,
    update: Update,
    result: Dispatched,
    rank: int,
)
    requires
        0 <= rank < bindings.len(),
        bindings[rank].filter.accepts(&update),
        dispatched_as(bindings, update, result),
    ensures
        !(result is Unhandled),
        result.binding() == selection(bindings, &update),
        result.binding() matches Some(picked) && picked <= rank,
{
    lemma_selection_is_unique(bindings, &update, result.binding(), result.binding());
    match result.binding() {
        Some(picked) => {
            if rank < picked {
                assert(!bindings[rank].filter.accepts(&update));
            }
        },
        None => {
            assert(!bindings[rank].filter.accepts(&update));
        },
    }
}

/// A handler that fails is reported exactly once, under the rank of its
/// binding and with its error.
pub proof fn lemma_failure_is_reported_once(binding: usize, error: HandlerError)
    ensures
        Dispatched::concluded(binding, Err(error)) == (Dispatched::HandlerFailed {
            binding,
            error,
        }),
        Event::reported_all(seq![Dispatched::concluded(binding, Err(error))]) == seq![
            Event::HandlerFailed { binding, error },
        ],
{
    crate::dispatcher::report::lemma_one_report_per_result(
        Dispatched::concluded(binding, Err(error)),
    );
}

/// A handler that fails holds nothing up: every update of the batch behind
/// the one it failed on is dispatched as if nothing had happened.
pub proof fn lemma_failure_stops_nothing<F: Filter<Update>, H: Handler<Update>>(
    bindings: Seq<Binding<F, H>>,
    updates: Seq<Update>,
    results: Seq<Dispatched>,
    failed: int,
    later: int,
)
    requires
        dispatched_all_as(bindings, updates, results),
        0 <= failed < later < updates.len(),
        results[failed] is HandlerFailed,
    ensures
        dispatched_as(bindings, updates[later], results[later]),
        results[later].binding() == selection(bindings, &updates[later]),
{
    lemma_selection_is_unique(
        bindings,
        &updates[later],
        results[later].binding(),
        results[later].binding(),
    );
}

/// The highest identifier of a batch is not below any identifier in it, and
/// it is one of them unless the batch is empty.
pub proof fn lemma_highest_id_is_highest(updates: Seq<Update>)
    ensures
        forall|i: int| 0 <= i < updates.len() ==> (#[trigger] updates[i]).id <= highest_id(updates),
        updates.len() > 0 ==> exists|i: int|
            0 <= i < updates.len() && (#[trigger] updates[i]).id == highest_id(updates),
        updates.len() == 0 ==> highest_id(updates) == 0,
    decreases updates.len(),
{
    if updates.len() > 0 {
        let earlier = updates.drop_last();
        lemma_highest_id_is_highest(earlier);
        assert forall|i: int| 0 <= i < updates.len() implies (#[trigger] updates[i]).id
            <= highest_id(updates) by {
            if i < earlier.len() {
                assert(earlier[i] == updates[i]);
            }
        }
        if updates.last().id > highest_id(earlier) || earlier.len() == 0 {
            assert(updates[updates.len() - 1].id == highest_id(updates));
        } else {
            let i = choose|i: int|
                0 <= i < earlier.len() && (#[trigger] earlier[i]).id == highest_id(earlier);
            assert(updates[i] == earlier[i]);
        }
    }
}

/// The cursor never moves down, and after a batch it has passed every
/// identifier of the batch and the offset that came with it.
pub proof fn lemma_cursor_never_decreases<F, H>(
    updater: UpdaterView<F, H>,
    updates: Seq<Update>,
    new_max_offset: u64,
)
    ensures
        updater.after_batch(updates, new_max_offset).cursor >= updater.cursor,
        updater.phase is Running ==> {
            let cursor = updater.after_batch(updates, new_max_offset).cursor;
            &&& cursor >= new_max_offset
            &&& forall|i: int| 0 <= i < updates.len() ==> (#[trigger] updates[i]).id <= cursor
            &&& cursor == updater.cursor || cursor == new_max_offset || exists|i: int|
                0 <= i < updates.len() && (#[trigger] updates[i]).id == cursor
        },
        !(updater.phase is Running) ==> updater.after_batch(updates, new_max_offset) == updater,
{
    lemma_highest_id_is_highest(updates);
}

/// A failed retrieval, a stop request and a start leave the cursor where it
/// was: the retry after a failure asks for the same updates again.
pub proof fn lemma_failure_keeps_cursor<F, H>(updater: UpdaterView<F, H>, error: RetrievalError)
    ensures
        updater.after_failure(error).cursor == updater.cursor,
        updater.stopped().cursor == updater.cursor,
        updater.started().cursor == updater.cursor,
        updater.after_failure(error).action_after_failure() matches Action::Fetch {
            since_offset,
            ..
        } ==> since_offset == updater.cursor,
{
}

/// One failed retrieval: below the retry limit the updater keeps running
/// with one failure more to its count; at the limit it stops, and the reason
/// names the failure.
pub proof fn lemma_failure_counts_toward_limit<F, H>(
    updater: UpdaterView<F, H>,
    error: RetrievalError,
    failures: u32,
)
    requires
        updater.wf(),
        updater.phase == (Phase::Running { failures }),
    ensures
        updater.after_failure(error).wf(),
        failures + 1 < updater.config.retry_limit ==> updater.after_failure(error).phase == (
        Phase::Running { failures: (failures + 1) as u32 }),
        failures + 1 >= updater.config.retry_limit ==> updater.after_failure(error).phase == (
        Phase::Stopped {
            reason: StopReason::RetrievalFailed { attempts: (failures + 1) as u32, error },
        }),
{
}

/// The number of failures in a row that stops an updater: its retry limit,
/// and one where the limit is zero.
pub open spec fn failures_allowed(retry_limit: u32) -> int {
    if retry_limit == 0 {
        1
    } else {
        retry_limit as int
    }
}

/// A run of failed retrievals: as long as there are fewer than the retry
/// limit the updater keeps running and has counted each of them; the failure
/// that reaches the limit stops it, with that failure as the reason.
pub proof fn lemma_failures_stop_at_limit<F, H>(
    updater: UpdaterView<F, H>,
    errors: Seq<RetrievalError>,
)
    requires
        updater.wf(),
        updater.phase == (Phase::Running { failures: 0 }),
        errors.len() <= failures_allowed(updater.config.retry_limit),
    ensures
        updater.after_failures(errors).wf(),
        updater.after_failures(errors).cursor == updater.cursor,
        updater.after_failures(errors).config == updater.config,
        updater.after_failures(errors).bindings == updater.bindings,
        errors.len() < failures_allowed(updater.config.retry_limit) ==> updater.after_failures(
            errors,
        ).phase == (Phase::Running { failures: errors.len() as u32 }),
        errors.len() == failures_allowed(updater.config.retry_limit) ==> updater.after_failures(
            errors,
        ).phase == (Phase::Stopped {
            reason: StopReason::RetrievalFailed {
                attempts: errors.len() as u32,
                error: errors.last(),
            },
        }),
    decreases errors.len(),
{
    if errors.len() > 0 {
        let before = updater.after_failures(errors.drop_last());
        lemma_failures_stop_at_limit(updater, errors.drop_last());
        assert(before.phase == (Phase::Running { failures: (errors.len() - 1) as u32 }));
        assert(updater.after_failures(errors) == before.after_failure(errors.last()));
    }
}

/// A successful retrieval forgets the failures before it: the count of
/// failures in a row starts again at zero.
pub proof fn lemma_success_resets_failures<F, H>(
    updater: UpdaterView<F, H>,
    updates: Seq<Update>,
    new_max_offset: u64,
)
    requires
        updater.wf(),
        updater.phase is Running,
    ensures
        updater.after_batch(updates, new_max_offset).wf(),
        updater.after_batch(updates, new_max_offset).phase == (Phase::Running { failures: 0 }),
{
}

/// A stopped updater stays stopped: it cannot be started, and no batch, no
/// failure and no stop request changes it.
pub proof fn lemma_stopped_is_final<F, H>(
    updater: UpdaterView<F, H>,
    updates: Seq<Update>,
    new_max_offset: u64,
    error: RetrievalError,
)
    requires
        updater.phase is Stopped,
    ensures
        !updater.can_start(),
        updater.stopped() == updater,
        updater.after_batch(updates, new_max_offset) == updater,
        updater.after_failure(error) == updater,
        updater.action_after_batch(updates.len()) == Action::Halt,
        updater.action_after_failure() == Action::Halt,
{
}

/// Every step keeps an updater as every updater is; in particular an
/// updater that has left idle has a sealed registry with at least one
/// binding, and the bindings never change after the start.
pub proof fn lemma_steps_keep_wf<F, H>(
    updater: UpdaterView<F, H>,
    updates: Seq<Update>,
    new_max_offset: u64,
    error: RetrievalError,
)
    requires
        updater.wf(),
    ensures
        updater.can_start() ==> updater.started().wf(),
        updater.stopped().wf(),
        updater.after_batch(updates, new_max_offset).wf(),
        updater.after_failure(error).wf(),
        updater.started().bindings == updater.bindings,
        updater.stopped().bindings == updater.bindings,
        updater.after_batch(updates, new_max_offset).bindings == updater.bindings,
        updater.after_failure(error).bindings == updater.bindings,
{
}

/// Whatever happens to an updater, and in whatever order: it stays as every
/// updater is, its cursor never moves down, and its configuration stays.
pub proof fn lemma_run_keeps_order<F, H>(updater: UpdaterView<F, H>, inputs: Seq<Input>)
    requires
        updater.wf(),
    ensures
        updater.after_all(inputs).wf(),
        updater.after_all(inputs).cursor >= updater.cursor,
        updater.after_all(inputs).config == updater.config,
    decreases inputs.len(),
{
    if inputs.len() > 0 {
        lemma_run_keeps_order(updater, inputs.drop_last());
        let before = updater.after_all(inputs.drop_last());
        match inputs.last() {
            Input::Fetched { updates, new_max_offset } => {
                lemma_cursor_never_decreases(before, updates, new_max_offset);
            },
            _ => {},
        }
    }
}

/// Once an updater has left idle its bindings are fixed: nothing that
/// happens to it adds, removes, reorders or changes a binding, and it never
/// becomes idle again.
pub proof fn lemma_bindings_fixed_after_start<F, H>(
    updater: UpdaterView<F, H>,
    inputs: Seq<Input>,
)
    requires
        updater.wf(),
        !(updater.phase is Idle),
    ensures
        updater.after_all(inputs).bindings == updater.bindings,
        updater.after_all(inputs).sealed,
        !(updater.after_all(inputs).phase is Idle),
    decreases inputs.len(),
{
    if inputs.len() > 0 {
        lemma_bindings_fixed_after_start(updater, inputs.drop_last());
    }
}

/// There is no way back from stopped: whatever happens to a stopped updater,
/// it stays exactly as it is.
pub proof fn lemma_stopped_forever<F, H>(updater: UpdaterView<F, H>, inputs: Seq<Input>)
    requires
        updater.phase is Stopped,
    ensures
        updater.after_all(inputs) == updater,
    decreases inputs.len(),
{
    if inputs.len() > 0 {
        lemma_stopped_forever(updater, inputs.drop_last());
    }
}

/// An updater runs only with bindings to route over: whatever has happened
/// to an idle updater, if it is running or stopped now, it has at least one
/// binding and its registry is sealed.
pub proof fn lemma_running_has_bindings<F, H>(updater: UpdaterView<F, H>, inputs: Seq<Input>)
    requires
        updater.wf(),
    ensures
        !(updater.after_all(inputs).phase is Idle) ==> updater.after_all(inputs).bindings.len() > 0
            && updater.after_all(inputs).sealed,
{
    lemma_run_keeps_order(updater, inputs);
}

} // verus!
