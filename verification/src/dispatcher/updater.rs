use vstd::prelude::*;

use crate::dispatcher::backoff::BackoffPolicy;
use crate::dispatcher::dispatch::{dispatched_all_as, Dispatched, Dispatcher};
use crate::dispatcher::filter::Filter;
use crate::dispatcher::handler::Handler;
use crate::dispatcher::registry::{Binding, RegistrationClosed};
use crate::dispatcher::report::{Event, RetrievalError, StopReason};
use crate::dispatcher::update::Update;

verus! {

/// The options of an updater. Delays are in milliseconds.
#[derive(Debug, PartialEq, Eq, Clone, Copy)]
pub struct Config {
    /// How long to wait before polling again after an empty batch.
    pub poll_interval: u64,
    /// How many retrievals may fail in a row before the updater stops. With
    /// a limit of zero, as with a limit of one, the first failure stops it.
    pub retry_limit: u32,
    /// How long to wait before retrying a failed retrieval.
    pub backoff_policy: BackoffPolicy,
}

/// Where an updater stands in its life.
#[derive(Debug, PartialEq, Eq, Clone, Copy, Structural)]
pub enum State {
    /// Built, not started: bindings can still be registered.
    Idle,
    /// Polling.
    Running,
    /// Stopped for good.
    Stopped,
}

/// An updater's state together with what belongs to it: the run of failed
/// retrievals while running, the reason once stopped.
#[derive(Debug, PartialEq, Eq)]
pub enum Phase {
    Idle,
    Running { failures: u32 },
    Stopped { reason: StopReason },
}

impl Phase {
    /// The state that this phase belongs to.
    pub open spec fn state(self) -> State {
        match self {
            Phase::Idle => State::Idle,
            Phase::Running { .. } => State::Running,
            Phase::Stopped { .. } => State::Stopped,
        }
    }
}

/// What the polling loop has to do next.
#[derive(Debug, PartialEq, Eq, Clone, Copy)]
pub enum Action {
    /// Wait `delay` milliseconds, then retrieve the updates newer than
    /// `since_offset`.
    Fetch { since_offset: u64, delay: u64 },
    /// Leave the loop: the updater is not running.
    Halt,
}

/// Why an updater did not start.
#[derive(Debug, PartialEq, Eq, Clone, Copy)]
pub enum StartError {
    /// No binding is registered.
    EmptyRegistry,
    /// The updater was started before; a stopped updater does not run again.
    NotIdle,
}

/// What one successful retrieval returned: the updates in arrival order and
/// the offset that the source has reached.
#[derive(Debug, PartialEq, Eq)]
pub struct Batch {
    pub updates: Vec<Update>,
    pub new_max_offset: u64,
}

/// What came of a retrieved batch: one result for each update, in the order
/// of the batch, and what to do next.
#[derive(Debug, PartialEq, Eq)]
pub struct Round {
    pub results: Vec<Dispatched>,
    pub action: Action,
}

/// What came of a failed retrieval or of a stop request: the events to
/// report, in order, and what to do next.
#[derive(Debug, PartialEq, Eq)]
pub struct Notice {
    pub events: Vec<Event>,
    pub action: Action,
}

/// The highest identifier among `updates`, zero if there are none.
pub open spec fn highest_id(updates: Seq<Update>) -> u64
    decreases updates.len(),
{
    if updates.len() == 0 {
        0
    } else {
        let earlier = highest_id(updates.drop_last());
        if updates.last().id > earlier {
            updates.last().id
        } else {
            earlier
        }
    }
}

/// The cursor after a batch: the old cursor, moved up to the batch's offset
/// and past the highest identifier in it. It never moves down.
pub open spec fn advanced(cursor: u64, updates: Seq<Update>, new_max_offset: u64) -> u64 {
    let reached = if new_max_offset > highest_id(updates) {
        new_max_offset
    } else {
        highest_id(updates)
    };
    if reached > cursor {
        reached
    } else {
        cursor
    }
}

/// What can happen to an updater: a start, a stop request, and the two ways
/// in which a retrieval ends.
pub enum Input {
    Start,
    Stop,
    Fetched { updates: Seq<Update>, new_max_offset: u64 },
    FetchFailed { error: RetrievalError },
}

/// What an updater is, as far as its contracts speak of it.
pub struct UpdaterView<F, H> {
    pub phase: Phase,
    /// The watermark: updates up to this identifier have been dispatched.
    pub cursor: u64,
    pub config: Config,
    /// The bindings, in registration order.
    pub bindings: Seq<Binding<F, H>>,
    /// Whether registration is closed.
    pub sealed: bool,
}

impl<F, H> UpdaterView<F, H> {
    /// What holds of every updater: registration is open exactly while idle,
    /// an updater that has started has bindings, and a running updater has
    /// not used up its retries.
    pub open spec fn wf(self) -> bool {
        &&& self.phase is Idle <==> !self.sealed
        &&& !(self.phase is Idle) ==> self.bindings.len() > 0
        &&& self.phase matches Phase::Running { failures } ==> failures == 0 || failures
            < self.config.retry_limit
    }

    /// Whether `start` succeeds.
    pub open spec fn can_start(self) -> bool {
        self.phase is Idle && self.bindings.len() > 0
    }

    /// The updater after a successful `start`.
    pub open spec fn started(self) -> Self {
        UpdaterView { phase: Phase::Running { failures: 0 }, sealed: true, ..self }
    }

    /// The updater after a stop request.
    pub open spec fn stopped(self) -> Self {
        if self.phase is Running {
            UpdaterView { phase: Phase::Stopped { reason: StopReason::Requested }, ..self }
        } else {
            self
        }
    }

    /// The updater after a batch has been retrieved and dispatched.
    pub open spec fn after_batch(self, updates: Seq<Update>, new_max_offset: u64) -> Self {
        if self.phase is Running {
            UpdaterView {
                phase: Phase::Running { failures: 0 },
                cursor: advanced(self.cursor, updates, new_max_offset),
                ..self
            }
        } else {
            self
        }
    }

    /// Whether one more failed retrieval uses up the retries.
    pub open spec fn gives_up(self) -> bool {
        self.phase matches Phase::Running { failures } && failures + 1 >= self.config.retry_limit
    }

    /// The updater after a retrieval has failed with `error`.
    pub open spec fn after_failure(self, error: RetrievalError) -> Self {
        match self.phase {
            Phase::Running { failures } => {
                let attempt = (failures + 1) as u32;
                if self.gives_up() {
                    UpdaterView {
                        phase: Phase::Stopped {
                            reason: StopReason::RetrievalFailed { attempts: attempt, error },
                        },
                        ..self
                    }
                } else {
                    UpdaterView { phase: Phase::Running { failures: attempt }, ..self }
                }
            },
            _ => self,
        }
    }

    /// The updater after `input` has happened to it.
    pub open spec fn after(self, input: Input) -> Self {
        match input {
            Input::Start => if self.can_start() {
                self.started()
            } else {
                self
            },
            Input::Stop => self.stopped(),
            Input::Fetched { updates, new_max_offset } => self.after_batch(
                updates,
                new_max_offset,
            ),
            Input::FetchFailed { error } => self.after_failure(error),
        }
    }

    /// The updater after `inputs` have happened to it, one after the other.
    pub open spec fn after_all(self, inputs: Seq<Input>) -> Self
        decreases inputs.len(),
    {
        if inputs.len() == 0 {
            self
        } else {
            self.after_all(inputs.drop_last()).after(inputs.last())
        }
    }

    /// The updater after one retrieval after another has failed, with
    /// `errors` in the order in which they came.
    pub open spec fn after_failures(self, errors: Seq<RetrievalError>) -> Self
        decreases errors.len(),
    {
        if errors.len() == 0 {
            self
        } else {
            self.after_failures(errors.drop_last()).after_failure(errors.last())
        }
    }

    /// What to do once a batch of `len` updates has been dispatched, seen
    /// from the updater as the batch left it: poll again at once after
    /// updates, after the poll interval when there were none.
    pub open spec fn action_after_batch(self, len: nat) -> Action {
        if self.phase is Running {
            Action::Fetch {
                since_offset: self.cursor,
                delay: if len == 0 {
                    self.config.poll_interval
                } else {
                    0
                },
            }
        } else {
            Action::Halt
        }
    }

    /// What to do after a failed retrieval, seen from the updater as the
    /// failure left it: retry from the same cursor after the backoff delay,
    /// or leave the loop if the updater has stopped.
    pub open spec fn action_after_failure(self) -> Action {
        match self.phase {
            Phase::Running { failures } => Action::Fetch {
                since_offset: self.cursor,
                delay: self.config.backoff_policy.delay_for(failures) as u64,
            },
            _ => Action::Halt,
        }
    }

    /// The events that a retrieval failing with `error` calls for, seen from
    /// the updater before the failure: the failure itself, and the stop if
    /// the failure brings one.
    pub open spec fn events_of_failure(self, error: RetrievalError) -> Seq<Event> {
        match self.phase {
            Phase::Running { failures } => {
                let attempt = (failures + 1) as u32;
                let failed = Event::RetrievalFailed { attempt, error };
                if self.gives_up() {
                    seq![
                        failed,
                        Event::UpdaterStopped {
                            reason: StopReason::RetrievalFailed { attempts: attempt, error },
                        },
                    ]
                } else {
                    seq![failed]
                }
            },
            _ => Seq::empty(),
        }
    }

    /// The events that a stop request calls for, seen from the updater before
    /// the request.
    pub open spec fn events_of_stop(self) -> Seq<Event> {
        if self.phase is Running {
            seq![Event::UpdaterStopped { reason: StopReason::Requested }]
        } else {
            Seq::empty()
        }
    }
}

/// The retrieval loop's decisions: it owns the dispatcher and the cursor,
/// takes what each retrieval returned and says what to do next. The loop
/// itself, which waits and retrieves, lives with the caller.
#[derive(Debug)]
pub struct Updater<F, H> {
    dispatcher: Dispatcher<F, H>,
    config: Config,
    phase: Phase,
    cursor: u64,
}

impl<F: Filter<Update>, H: Handler<Update>> View for Updater<F, H> {
    type V = UpdaterView<F, H>;

    closed spec fn view(&self) -> UpdaterView<F, H> {
        UpdaterView {
            phase: self.phase,
            cursor: self.cursor,
            config: self.config,
            bindings: self.dispatcher@,
            sealed: self.dispatcher.is_sealed(),
        }
    }
}

/// Computes the highest identifier among `updates`.
fn highest_id_of(updates: &Vec<Update>) -> (highest: u64)
    ensures
        highest == highest_id(updates@),
{
    let mut highest: u64 = 0;
    let mut i: usize = 0;
    while i < updates.len()
        invariant
            i <= updates@.len(),
            highest == highest_id(updates@.take(i as int)),
        decreases updates@.len() - i,
    {
        proof {
            let seen = updates@.take(i + 1);
            assert(seen.drop_last() == updates@.take(i as int));
            assert(seen.last() == updates@[i as int]);
        }
        if updates[i].id > highest {
            highest = updates[i].id;
        }
        i += 1;
    }
    proof {
        assert(updates@.take(updates@.len() as int) == updates@);
    }
    highest
}

impl<F: Filter<Update>, H: Handler<Update>> Updater<F, H> {
    /// Whether this updater is as every updater is. Every function here
    /// that hands out an updater establishes this, and every function that
    /// changes one keeps it.
    pub open spec fn wf(&self) -> bool {
        self@.wf()
    }

    /// An idle updater without bindings, its cursor at zero.
    pub fn new(config: Config) -> (updater: Self)
        ensures
            updater.wf(),
            updater@ == (UpdaterView::<F, H> {
                phase: Phase::Idle,
                cursor: 0,
                config,
                bindings: Seq::empty(),
                sealed: false,
            }),
    {
        Updater::with_cursor(config, 0)
    }

    /// An idle updater without bindings that will ask for the updates newer
    /// than `cursor`.
    pub fn with_cursor(config: Config, cursor: u64) -> (updater: Self)
        ensures
            updater.wf(),
            updater@ == (UpdaterView::<F, H> {
                phase: Phase::Idle,
                cursor,
                config,
                bindings: Seq::empty(),
                sealed: false,
            }),
    {
        let registry = crate::dispatcher::registry::Registry::new();
        Updater { dispatcher: Dispatcher::new(registry), config, phase: Phase::Idle, cursor }
    }

    /// Where the updater stands.
    pub fn state(&self) -> (state: State)
        ensures
            state == self@.phase.state(),
    {
        match &self.phase {
            Phase::Idle => State::Idle,
            Phase::Running { .. } => State::Running,
            Phase::Stopped { .. } => State::Stopped,
        }
    }

    /// Why the updater stopped, once it has.
    pub fn stop_reason(&self) -> (reason: Option<&StopReason>)
        ensures
            match reason {
                Some(reason) => self@.phase == (Phase::Stopped { reason: *reason }),
                None => !(self@.phase is Stopped),
            },
    {
        match &self.phase {
            Phase::Stopped { reason } => Some(reason),
            _ => None,
        }
    }

    /// Appends a binding behind those registered so far.
    ///
    /// Registration is open while the updater is idle. Once it has been
    /// started the binding is rejected and nothing changes.
    pub fn register(&mut self, filter: F, handler: H) -> (result: Result<(), RegistrationClosed>)
        requires
            old(self).wf(),
        ensures
            final(self).wf(),
            result is Ok <==> old(self)@.phase is Idle,
            result is Ok ==> final(self)@ == (UpdaterView {
                bindings: old(self)@.bindings.push(Binding { filter, handler }),
                ..old(self)@
            }),
            result is Err ==> final(self)@ == old(self)@,
    {
        self.dispatcher.register(filter, handler)
    }

    /// Starts polling: seals the registry and asks for the first retrieval.
    ///
    /// An updater starts once, from idle, and only with at least one
    /// binding. Otherwise nothing changes.
    pub fn start(&mut self) -> (result: Result<Action, StartError>)
        requires
            old(self).wf(),
        ensures
            final(self).wf(),
            result is Ok <==> old(self)@.can_start(),
            match result {
                Ok(action) => {
                    &&& final(self)@ == old(self)@.started()
                    &&& action == (Action::Fetch { since_offset: old(self)@.cursor, delay: 0 })
                },
                Err(error) => {
                    &&& final(self)@ == old(self)@
                    &&& error == if old(self)@.phase is Idle {
                        StartError::EmptyRegistry
                    } else {
                        StartError::NotIdle
                    }
                },
            },
    {
        match &self.phase {
            Phase::Idle => {},
            _ => {
                return Err(StartError::NotIdle);
            },
        }
        if self.dispatcher.registry().is_empty() {
            return Err(StartError::EmptyRegistry);
        }
        self.dispatcher.seal();
        self.phase = Phase::Running { failures: 0 };
        Ok(Action::Fetch { since_offset: self.cursor, delay: 0 })
    }

    /// Takes a stop request: a running updater stops and says so, any other
    /// stays as it is.
    ///
    /// Handlers run to their end inside `on_fetched`, so none is under way
    /// when a stop request is taken.
    pub fn stop(&mut self) -> (notice: Notice)
        requires
            old(self).wf(),
        ensures
            final(self).wf(),
            final(self)@ == old(self)@.stopped(),
            notice.events@ == old(self)@.events_of_stop(),
            notice.action == Action::Halt,
    {
        let mut events: Vec<Event> = Vec::new();
        match &self.phase {
            Phase::Running { .. } => {
                self.phase = Phase::Stopped { reason: StopReason::Requested };
                events.push(Event::UpdaterStopped { reason: StopReason::Requested });
            },
            _ => {},
        }
        Notice { events, action: Action::Halt }
    }

    /// Takes a retrieved batch: dispatches its updates in the order given,
    /// forgets earlier failures and moves the cursor up.
    ///
    /// An updater that is not running dispatches nothing and stays as it
    /// is.
    pub fn on_fetched(&mut self, batch: Batch) -> (round: Round)
        requires
            old(self).wf(),
        ensures
            final(self).wf(),
            final(self)@ == old(self)@.after_batch(batch.updates@, batch.new_max_offset),
            round.action == final(self)@.action_after_batch(batch.updates@.len()),
            old(self)@.phase is Running ==> dispatched_all_as(
                old(self)@.bindings,
                batch.updates@,
                round.results@,
            ),
            !(old(self)@.phase is Running) ==> round.results@.len() == 0,
    {
        match &self.phase {
            Phase::Running { .. } => {},
            _ => {
                return Round { results: Vec::new(), action: Action::Halt };
            },
        }
        let Batch { updates, new_max_offset } = batch;
        let highest = highest_id_of(&updates);
        let reached = if new_max_offset > highest {
            new_max_offset
        } else {
            highest
        };
        let delay = if updates.len() == 0 {
            self.config.poll_interval
        } else {
            0
        };
        let results = self.dispatcher.dispatch_all(updates);
        if reached > self.cursor {
            self.cursor = reached;
        }
        self.phase = Phase::Running { failures: 0 };
        Round { results, action: Action::Fetch { since_offset: self.cursor, delay } }
    }

    /// Takes a failed retrieval: counts it, reports it, and either asks for
    /// a retry from the same cursor after the backoff delay or, if the
    /// retries are used up, stops.
    ///
    /// An updater that is not running stays as it is and reports nothing.
    pub fn on_fetch_failed(&mut self, error: RetrievalError) -> (notice: Notice)
        requires
            old(self).wf(),
        ensures
            final(self).wf(),
            final(self)@ == old(self)@.after_failure(error),
            notice.events@ == old(self)@.events_of_failure(error),
            notice.action == final(self)@.action_after_failure(),
    {
        let failures = match &self.phase {
            Phase::Running { failures } => *failures,
            _ => {
                return Notice { events: Vec::new(), action: Action::Halt };
            },
        };
        let attempt: u32 = failures + 1;
        let mut events: Vec<Event> = Vec::new();
        if attempt >= self.config.retry_limit {
            events.push(Event::RetrievalFailed { attempt, error: error.duplicate() });
            events.push(
                Event::UpdaterStopped {
                    reason: StopReason::RetrievalFailed {
                        attempts: attempt,
                        error: error.duplicate(),
                    },
                },
            );
            self.phase = Phase::Stopped {
                reason: StopReason::RetrievalFailed { attempts: attempt, error },
            };
            Notice { events, action: Action::Halt }
        } else {
            events.push(Event::RetrievalFailed { attempt, error });
            self.phase = Phase::Running { failures: attempt };
            let delay = self.config.backoff_policy.delay(attempt);
            Notice { events, action: Action::Fetch { since_offset: self.cursor, delay } }
        }
    }
}

} // verus!
