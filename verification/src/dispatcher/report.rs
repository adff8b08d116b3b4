use vstd::prelude::*;

use crate::dispatcher::dispatch::Dispatched;
use crate::dispatcher::handler::HandlerError;
use crate::dispatcher::update::Update;

verus! {

/// Why a retrieval from the platform failed.
#[derive(Debug, PartialEq, Eq, Clone)]
pub struct RetrievalError {
    pub message: String,
}

impl RetrievalError {
    pub fn new(message: String) -> (error: RetrievalError)
        ensures
            error == (RetrievalError { message }),
    {
        RetrievalError { message }
    }

    /// A second value equal to this one.
    pub fn duplicate(&self) -> (copy: RetrievalError)
        ensures
            copy == *self,
    {
        RetrievalError { message: self.message.clone() }
    }
}

/// Why an updater stopped.
#[derive(Debug, PartialEq, Eq, Clone)]
pub enum StopReason {
    /// A stop was requested.
    Requested,
    /// Retrieval failed `attempts` times in a row, the last time with `error`,
    /// and no retry was left.
    RetrievalFailed { attempts: u32, error: RetrievalError },
}

/// What the core tells the reporting sink. Each occurrence is reported once.
#[derive(Debug, PartialEq, Eq)]
pub enum Event {
    /// The handler of the binding at this rank failed.
    HandlerFailed { binding: usize, error: HandlerError },
    /// No binding accepted the update.
    Unhandled { update: Update },
    /// Retrieval failed for the `attempt`-th time in a row.
    RetrievalFailed { attempt: u32, error: RetrievalError },
    /// The updater has stopped and will not poll again.
    UpdaterStopped { reason: StopReason },
}

impl Event {
    /// The event that one dispatch result calls for: a failure and an
    /// unhandled update are reported, a success is not.
    pub open spec fn reported(result: Dispatched) -> Option<Event> {
        match result {
            Dispatched::Handled { .. } => None,
            Dispatched::HandlerFailed { binding, error } => Some(
                Event::HandlerFailed { binding, error },
            ),
            Dispatched::Unhandled { update } => Some(Event::Unhandled { update }),
        }
    }

    /// The events that a run of dispatch results calls for, in the order of
    /// the results.
    pub open spec fn reported_all(results: Seq<Dispatched>) -> Seq<Event>
        decreases results.len(),
    {
        if results.len() == 0 {
            Seq::empty()
        } else {
            let earlier = Event::reported_all(results.drop_last());
            match Event::reported(results.last()) {
                Some(event) => earlier.push(event),
                None => earlier,
            }
        }
    }

    /// Turns one dispatch result into the event to report, if it calls for
    /// one.
    pub fn report(result: Dispatched) -> (event: Option<Event>)
        ensures
            event == Event::reported(result),
    {
        match result {
            Dispatched::Handled { .. } => None,
            Dispatched::HandlerFailed { binding, error } => Some(
                Event::HandlerFailed { binding, error },
            ),
            Dispatched::Unhandled { update } => Some(Event::Unhandled { update }),
        }
    }

    /// Turns the dispatch results of a batch into the events to report,
    /// keeping their order.
    pub fn report_all(results: Vec<Dispatched>) -> (events: Vec<Event>)
        ensures
            events@ == Event::reported_all(results@),
    {
        let mut events: Vec<Event> = Vec::new();
        let ghost all = results@;
        for result in it: results
            invariant
                it.seq() == all,
                events@ == Event::reported_all(all.take(it.index())),
        {
            proof {
                let seen = all.take(it.index() + 1);
                assert(seen.drop_last() == all.take(it.index()));
                assert(seen.last() == result);
            }
            match Event::report(result) {
                Some(event) => {
                    events.push(event);
                },
                None => {},
            }
        }
        proof {
            assert(all.take(all.len() as int) == all);
        }
        events
    }
}

/// Reports keep to the order of what they report on: the events of two runs
/// of results put end to end are the events of the first followed by those of
/// the second.
pub proof fn lemma_reports_in_order(first: Seq<Dispatched>, second: Seq<Dispatched>)
    ensures
        Event::reported_all(first + second) == Event::reported_all(first) + Event::reported_all(
            second,
        ),
    decreases second.len(),
{
    if second.len() == 0 {
        assert(first + second == first);
    } else {
        lemma_reports_in_order(first, second.drop_last());
        assert((first + second).drop_last() == first + second.drop_last());
        assert((first + second).last() == second.last());
    }
}

/// One result gives one event or none: exactly one when a handler failed or
/// nobody accepted the update, none when a handler succeeded.
pub proof fn lemma_one_report_per_result(result: Dispatched)
    ensures
        Event::reported_all(seq![result]) == match Event::reported(result) {
            Some(event) => seq![event],
            None => Seq::<Event>::empty(),
        },
        Event::reported(result) is None <==> result is Handled,
{
    assert(seq![result].drop_last() == Seq::<Dispatched>::empty());
    assert(seq![result].last() == result);
    reveal_with_fuel(Event::reported_all, 2);
}

} // verus!
