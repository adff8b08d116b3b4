use vstd::prelude::*;

use crate::dispatcher::filter::Filter;
use crate::dispatcher::handler::{Handler, HandlerError};
use crate::dispatcher::registry::{Binding, RegistrationClosed, Registry};
use crate::dispatcher::update::Update;

verus! {

/// Whether `choice` is what first-match-wins routing picks for `update`.
///
/// `Some(i)` is picked when binding `i` accepts the update and no binding
/// before it does; `None` when no binding accepts it.
pub open spec fn selects<F: Filter<Update>, H>(
    bindings: Seq<Binding<F, H>>,
    update: &Update,
    choice: Option<int>,
) -> bool {
    match choice {
        Some(i) => {
            &&& 0 <= i < bindings.len()
            &&& bindings[i].filter.accepts(update)
            &&& forall|j: int| 0 <= j < i ==> !(#[trigger] bindings[j]).filter.accepts(update)
        },
        None => forall|j: int|
            0 <= j < bindings.len() ==> !(#[trigger] bindings[j]).filter.accepts(update),
    }
}

/// A rank as routing speaks of it.
pub open spec fn as_rank(choice: Option<usize>) -> Option<int> {
    match choice {
        Some(i) => Some(i as int),
        None => None,
    }
}

/// The rank that first-match-wins routing picks for `update`, if any binding
/// accepts it.
pub open spec fn selection<F: Filter<Update>, H>(
    bindings: Seq<Binding<F, H>>,
    update: &Update,
) -> Option<int>
    decreases bindings.len(),
{
    if bindings.len() == 0 {
        None
    } else {
        match selection(bindings.drop_last(), update) {
            Some(i) => Some(i),
            None => if bindings.last().filter.accepts(update) {
                Some(bindings.len() - 1)
            } else {
                None
            },
        }
    }
}

/// Routing always has an answer, and `selection` is it.
pub proof fn lemma_selection_selects<F: Filter<Update>, H>(
    bindings: Seq<Binding<F, H>>,
    update: &Update,
)
    ensures
        selects(bindings, update, selection(bindings, update)),
    decreases bindings.len(),
{
    if bindings.len() > 0 {
        let earlier = bindings.drop_last();
        lemma_selection_selects(earlier, update);
        assert forall|j: int| 0 <= j < earlier.len() implies earlier[j] == bindings[j] by {}
        match selection(earlier, update) {
            Some(i) => {
                assert(earlier[i] == bindings[i]);
                assert forall|j: int| 0 <= j < i implies !(#[trigger] bindings[j]).filter.accepts(
                    update,
                ) by {
                    assert(earlier[j] == bindings[j]);
                }
            },
            None => {
                assert forall|j: int| 0 <= j < bindings.len() - 1 implies !(
                #[trigger] bindings[j]).filter.accepts(update) by {
                    assert(earlier[j] == bindings[j]);
                }
            },
        }
    }
}

/// Routing is deterministic: over the same bindings the same update is
/// always routed the same way, so two answers to one question are one answer.
pub proof fn lemma_selection_is_unique<F: Filter<Update>, H>(
    bindings: Seq<Binding<F, H>>,
    update: &Update,
    first: Option<int>,
    second: Option<int>,
)
    requires
        selects(bindings, update, first),
        selects(bindings, update, second),
    ensures
        first == second,
        first == selection(bindings, update),
{
    lemma_selection_selects(bindings, update);
    lemma_two_selections_agree(bindings, update, first, second);
    lemma_two_selections_agree(bindings, update, first, selection(bindings, update));
}

proof fn lemma_two_selections_agree<F: Filter<Update>, H>(
    bindings: Seq<Binding<F, H>>,
    update: &Update,
    first: Option<int>,
    second: Option<int>,
)
    requires
        selects(bindings, update, first),
        selects(bindings, update, second),
    ensures
        first == second,
{
    match (first, second) {
        (Some(i), Some(j)) => {
            if i < j {
                assert(!bindings[i].filter.accepts(update));
            } else if j < i {
                assert(!bindings[j].filter.accepts(update));
            }
        },
        (Some(i), None) => {
            assert(!bindings[i].filter.accepts(update));
        },
        (None, Some(j)) => {
            assert(!bindings[j].filter.accepts(update));
        },
        (None, None) => {},
    }
}

/// What became of one update.
#[derive(Debug, PartialEq, Eq)]
pub enum Dispatched {
    /// The handler of the binding at this rank ran and succeeded.
    Handled { binding: usize },
    /// The handler of the binding at this rank ran and failed.
    HandlerFailed { binding: usize, error: HandlerError },
    /// No binding accepted the update; no handler ran.
    Unhandled { update: Update },
}

impl Dispatched {
    /// The rank of the binding whose handler ran, if one did.
    pub open spec fn binding(self) -> Option<int> {
        match self {
            Dispatched::Handled { binding } => Some(binding as int),
            Dispatched::HandlerFailed { binding, .. } => Some(binding as int),
            Dispatched::Unhandled { .. } => None,
        }
    }

    /// What the handler at rank `binding` having returned `outcome` amounts to.
    pub open spec fn concluded(binding: usize, outcome: Result<(), HandlerError>) -> Dispatched {
        match outcome {
            Ok(_) => Dispatched::Handled { binding },
            Err(error) => Dispatched::HandlerFailed { binding, error },
        }
    }

    /// Turns the outcome of the handler at rank `binding` into a result.
    pub fn conclude(binding: usize, outcome: Result<(), HandlerError>) -> (result: Dispatched)
        ensures
            result == Dispatched::concluded(binding, outcome),
    {
        match outcome {
            Ok(_) => Dispatched::Handled { binding },
            Err(error) => Dispatched::HandlerFailed { binding, error },
        }
    }
}

/// Whether `result` is a possible result of dispatching `update` over
/// `bindings`: the handler that ran, if any, is the handler of the binding
/// that routing picks, the result is what that handler returned on this
/// update, and an update that nobody accepted comes back untouched.
pub open spec fn dispatched_as<F: Filter<Update>, H: Handler<Update>>(
    bindings: Seq<Binding<F, H>>,
    update: Update,
    result: Dispatched,
) -> bool {
    &&& selects(bindings, &update, result.binding())
    &&& match result {
        Dispatched::Handled { binding } => call_ensures(
            H::execute,
            (&bindings[binding as int].handler, &update),
            Ok(()),
        ),
        Dispatched::HandlerFailed { binding, error } => call_ensures(
            H::execute,
            (&bindings[binding as int].handler, &update),
            Err(error),
        ),
        Dispatched::Unhandled { update: returned } => returned == update,
    }
}

/// Whether `results` are possible results of dispatching `updates` over
/// `bindings` one by one: there is one result for each update, in the order
/// of the updates, whatever became of the updates before it.
pub open spec fn dispatched_all_as<F: Filter<Update>, H: Handler<Update>>(
    bindings: Seq<Binding<F, H>>,
    updates: Seq<Update>,
    results: Seq<Dispatched>,
) -> bool {
    &&& results.len() == updates.len()
    &&& forall|i: int|
        0 <= i < updates.len() ==> dispatched_as(bindings, updates[i], #[trigger] results[i])
}

/// Routes updates to handlers, first match wins.
#[derive(Debug)]
pub struct Dispatcher<F, H> {
    registry: Registry<F, H>,
}

impl<F: Filter<Update>, H: Handler<Update>> View for Dispatcher<F, H> {
    type V = Seq<Binding<F, H>>;

    closed spec fn view(&self) -> Seq<Binding<F, H>> {
        self.registry@
    }
}

impl<F: Filter<Update>, H: Handler<Update>> Dispatcher<F, H> {
    /// Whether the registry has been sealed.
    pub closed spec fn is_sealed(&self) -> bool {
        self.registry.is_sealed()
    }

    /// A dispatcher over the bindings of `registry`.
    pub fn new(registry: Registry<F, H>) -> (dispatcher: Self)
        ensures
            dispatcher@ == registry@,
            dispatcher.is_sealed() == registry.is_sealed(),
    {
        Dispatcher { registry }
    }

    /// Appends a binding to the registry, unless the registry is sealed.
    pub fn register(&mut self, filter: F, handler: H) -> (result: Result<(), RegistrationClosed>)
        ensures
            result is Ok <==> !old(self).is_sealed(),
            result is Ok ==> final(self)@ == old(self)@.push(Binding { filter, handler }),
            result is Err ==> final(self)@ == old(self)@,
            final(self).is_sealed() == old(self).is_sealed(),
    {
        self.registry.register(filter, handler)
    }

    /// Seals the registry: the bindings stay as they are from now on.
    pub fn seal(&mut self)
        ensures
            final(self).is_sealed(),
            final(self)@ == old(self)@,
    {
        self.registry.seal()
    }

    /// The registry that this dispatcher routes over.
    pub fn registry(&self) -> (registry: &Registry<F, H>)
        ensures
            registry@ == self@,
            registry.is_sealed() == self.is_sealed(),
    {
        &self.registry
    }

    /// The rank of the first binding whose filter accepts `update`.
    pub fn select(&self, update: &Update) -> (choice: Option<usize>)
        ensures
            selects(self@, update, as_rank(choice)),
            as_rank(choice) == selection(self@, update),
    {
        let bindings = self.registry.bindings();
        let mut i: usize = 0;
        while i < bindings.len()
            invariant
                bindings@ == self@,
                i <= bindings@.len(),
                forall|j: int| 0 <= j < i ==> !(#[trigger] bindings@[j]).filter.accepts(update),
            decreases bindings@.len() - i,
        {
            if bindings[i].filter.evaluate(update) {
                proof {
                    lemma_selection_is_unique(self@, update, Some(i as int), Some(i as int));
                }
                return Some(i);
            }
            i += 1;
        }
        proof {
            lemma_selection_is_unique(self@, update, None, None);
        }
        None
    }

    /// Hands `update` to the handler of the first binding that accepts it.
    ///
    /// At most one handler runs. Its failure is part of the result and stops
    /// nothing. An update that no binding accepts is handed back.
    pub fn dispatch(&self, update: Update) -> (result: Dispatched)
        ensures
            dispatched_as(self@, update, result),
            result.binding() == selection(self@, &update),
    {
        match self.select(&update) {
            Some(i) => {
                let outcome = self.registry.bindings()[i].handler.execute(&update);
                assert(outcome matches Ok(unit) ==> unit == ());
                Dispatched::conclude(i, outcome)
            },
            None => Dispatched::Unhandled { update },
        }
    }

    /// Dispatches the updates of a batch one by one, in the order given.
    ///
    /// Every update is dispatched, whatever became of those before it.
    pub fn dispatch_all(&self, updates: Vec<Update>) -> (results: Vec<Dispatched>)
        ensures
            dispatched_all_as(self@, updates@, results@),
    {
        let mut results: Vec<Dispatched> = Vec::new();
        for update in it: updates
            invariant
                results@.len() == it.index(),
                forall|i: int|
                    0 <= i < it.index() ==> dispatched_as(
                        self@,
                        it.seq()[i],
                        #[trigger] results@[i],
                    ),
        {
            let result = self.dispatch(update);
            results.push(result);
        }
        results
    }
}

} // verus!
