use std::cell::RefCell;
use std::rc::Rc;

use teloxide::dispatcher::filter::{Always, Command};
use teloxide::dispatcher::{
    Action, BackoffPolicy, Batch, Config, Dispatched, Event, Filter, Handler, HandlerError,
    Notice, RegistrationClosed, RetrievalError, Round, StartError, State, StopReason, Update,
    Updater,
};

type Log = Rc<RefCell<Vec<(&'static str, u64)>>>;

struct Recorder {
    name: &'static str,
    log: Log,
    fails: bool,
}

impl Handler<Update> for Recorder {
    fn execute(&self, value: &Update) -> Result<(), HandlerError> {
        self.log.borrow_mut().push((self.name, value.id));
        if self.fails {
            Err(HandlerError::new(format!("{} failed on {}", self.name, value.id)))
        } else {
            Ok(())
        }
    }
}

type Bot = Updater<Box<dyn Filter<Update>>, Recorder>;

fn config(retry_limit: u32) -> Config {
    Config {
        poll_interval: 250,
        retry_limit,
        backoff_policy: BackoffPolicy::Linear { base: 1000, step: 500 },
    }
}

fn update(id: u64, text: &str) -> Update {
    Update::new(id, text.to_string())
}

fn batch(updates: Vec<Update>, new_max_offset: u64) -> Batch {
    Batch { updates, new_max_offset }
}

fn error(message: &str) -> RetrievalError {
    RetrievalError::new(message.to_string())
}

fn fallback(updater: &mut Bot, log: &Log) {
    let handler = Recorder { name: "any", log: log.clone(), fails: false };
    assert_eq!(updater.register(Box::new(Always), handler), Ok(()));
}

fn running(retry_limit: u32, cursor: u64, log: &Log) -> Bot {
    let mut updater = Updater::with_cursor(config(retry_limit), cursor);
    fallback(&mut updater, log);
    assert_eq!(updater.start(), Ok(Action::Fetch { since_offset: cursor, delay: 0 }));
    updater
}

#[test]
fn new_updater_is_idle() {
    let updater: Bot = Updater::new(config(3));
    assert_eq!(updater.state(), State::Idle);
    assert_eq!(updater.stop_reason(), None);
}

#[test]
fn start_without_bindings_is_refused() {
    let mut updater: Bot = Updater::new(config(3));
    assert_eq!(updater.start(), Err(StartError::EmptyRegistry));
    assert_eq!(updater.state(), State::Idle);
    let log = Log::default();
    fallback(&mut updater, &log);
    assert_eq!(updater.start(), Ok(Action::Fetch { since_offset: 0, delay: 0 }));
    assert_eq!(updater.state(), State::Running);
}

#[test]
fn start_asks_for_the_updates_after_the_cursor() {
    let log = Log::default();
    let mut updater: Bot = Updater::with_cursor(config(3), 41);
    fallback(&mut updater, &log);
    assert_eq!(updater.start(), Ok(Action::Fetch { since_offset: 41, delay: 0 }));
}

#[test]
fn updater_starts_only_once() {
    let log = Log::default();
    let mut updater = running(3, 0, &log);
    assert_eq!(updater.start(), Err(StartError::NotIdle));
    assert_eq!(updater.state(), State::Running);
    updater.stop();
    assert_eq!(updater.start(), Err(StartError::NotIdle));
    assert_eq!(updater.state(), State::Stopped);
}

#[test]
fn registration_closes_at_start() {
    let log = Log::default();
    let mut updater: Bot = Updater::new(config(3));
    let first = Recorder { name: "start", log: log.clone(), fails: false };
    let command = Command { name: "/start".to_string() };
    assert_eq!(updater.register(Box::new(command), first), Ok(()));
    fallback(&mut updater, &log);
    assert!(updater.start().is_ok());

    let late = Recorder { name: "late", log: log.clone(), fails: false };
    assert_eq!(updater.register(Box::new(Always), late), Err(RegistrationClosed));

    let round = updater.on_fetched(batch(vec![update(1, "/start"), update(2, "hi")], 2));
    assert_eq!(
        round.results,
        vec![Dispatched::Handled { binding: 0 }, Dispatched::Handled { binding: 1 }]
    );
    assert_eq!(*log.borrow(), vec![("start", 1), ("any", 2)]);

    updater.stop();
    let later = Recorder { name: "later", log: log.clone(), fails: false };
    assert_eq!(updater.register(Box::new(Always), later), Err(RegistrationClosed));
}

#[test]
fn batch_is_dispatched_in_order_and_the_cursor_follows() {
    let log = Log::default();
    let mut updater = running(3, 4, &log);
    let round = updater.on_fetched(batch(vec![update(5, "u1"), update(6, "u2")], 6));
    assert_eq!(
        round,
        Round {
            results: vec![Dispatched::Handled { binding: 0 }, Dispatched::Handled { binding: 0 }],
            action: Action::Fetch { since_offset: 6, delay: 0 },
        }
    );
    assert_eq!(*log.borrow(), vec![("any", 5), ("any", 6)]);
    assert_eq!(updater.state(), State::Running);
}

#[test]
fn empty_batch_waits_for_the_poll_interval() {
    let log = Log::default();
    let mut updater = running(3, 4, &log);
    let round = updater.on_fetched(batch(Vec::new(), 4));
    assert_eq!(
        round,
        Round { results: Vec::new(), action: Action::Fetch { since_offset: 4, delay: 250 } }
    );
    assert!(log.borrow().is_empty());
}

#[test]
fn cursor_passes_the_highest_identifier_whatever_the_order() {
    let log = Log::default();
    let mut updater = running(3, 0, &log);
    let round = updater.on_fetched(batch(vec![update(9, "a"), update(7, "b"), update(8, "c")], 0));
    assert_eq!(round.action, Action::Fetch { since_offset: 9, delay: 0 });
    assert_eq!(*log.borrow(), vec![("any", 9), ("any", 7), ("any", 8)]);
}

#[test]
fn cursor_follows_the_offset_of_the_source() {
    let log = Log::default();
    let mut updater = running(3, 0, &log);
    let round = updater.on_fetched(batch(vec![update(5, "a")], 12));
    assert_eq!(round.action, Action::Fetch { since_offset: 12, delay: 0 });
    let round = updater.on_fetched(batch(Vec::new(), 15));
    assert_eq!(round.action, Action::Fetch { since_offset: 15, delay: 250 });
}

#[test]
fn cursor_never_moves_down() {
    let log = Log::default();
    let mut updater = running(3, 10, &log);
    let mut previous = 10;
    let batches = [
        batch(vec![update(3, "old")], 3),
        batch(Vec::new(), 0),
        batch(vec![update(11, "new")], 11),
        batch(vec![update(2, "older")], 1),
        batch(vec![update(u64::MAX, "last")], 5),
        batch(vec![update(1, "after the last")], 1),
    ];
    let expected = [10, 10, 11, 11, u64::MAX, u64::MAX];
    for (batch, expected) in batches.into_iter().zip(expected) {
        match updater.on_fetched(batch).action {
            Action::Fetch { since_offset, .. } => {
                assert!(since_offset >= previous);
                assert_eq!(since_offset, expected);
                previous = since_offset;
            }
            Action::Halt => panic!("a running updater keeps polling"),
        }
    }
}

#[test]
fn failed_retrieval_is_retried_from_the_same_cursor() {
    let log = Log::default();
    let mut updater = running(3, 4, &log);
    let notice = updater.on_fetch_failed(error("timeout"));
    assert_eq!(
        notice,
        Notice {
            events: vec![Event::RetrievalFailed { attempt: 1, error: error("timeout") }],
            action: Action::Fetch { since_offset: 4, delay: 1000 },
        }
    );
    assert_eq!(updater.state(), State::Running);
    let round = updater.on_fetched(batch(vec![update(5, "u1"), update(6, "u2")], 6));
    assert_eq!(round.action, Action::Fetch { since_offset: 6, delay: 0 });
    assert_eq!(*log.borrow(), vec![("any", 5), ("any", 6)]);
}

#[test]
fn failures_below_the_limit_do_not_stop_the_updater() {
    let log = Log::default();
    let mut updater = running(3, 0, &log);
    let first = updater.on_fetch_failed(error("one"));
    assert_eq!(first.action, Action::Fetch { since_offset: 0, delay: 1000 });
    assert_eq!(updater.state(), State::Running);
    let second = updater.on_fetch_failed(error("two"));
    assert_eq!(
        second,
        Notice {
            events: vec![Event::RetrievalFailed { attempt: 2, error: error("two") }],
            action: Action::Fetch { since_offset: 0, delay: 1500 },
        }
    );
    assert_eq!(updater.state(), State::Running);
    assert_eq!(updater.stop_reason(), None);
}

#[test]
fn reaching_the_limit_stops_the_updater() {
    let log = Log::default();
    let mut updater = running(3, 0, &log);
    updater.on_fetch_failed(error("one"));
    updater.on_fetch_failed(error("two"));
    let third = updater.on_fetch_failed(error("three"));
    let reason = StopReason::RetrievalFailed { attempts: 3, error: error("three") };
    assert_eq!(
        third,
        Notice {
            events: vec![
                Event::RetrievalFailed { attempt: 3, error: error("three") },
                Event::UpdaterStopped { reason: reason.clone() },
            ],
            action: Action::Halt,
        }
    );
    assert_eq!(updater.state(), State::Stopped);
    assert_eq!(updater.stop_reason(), Some(&reason));
}

#[test]
fn success_forgets_earlier_failures() {
    let log = Log::default();
    let mut updater = running(2, 0, &log);
    for round in 0..5u64 {
        let notice = updater.on_fetch_failed(error("flaky"));
        assert_eq!(
            notice.events,
            vec![Event::RetrievalFailed { attempt: 1, error: error("flaky") }]
        );
        assert_eq!(notice.action, Action::Fetch { since_offset: round, delay: 1000 });
        let next = updater.on_fetched(batch(vec![update(round + 1, "x")], round + 1));
        assert_eq!(next.action, Action::Fetch { since_offset: round + 1, delay: 0 });
    }
    assert_eq!(updater.state(), State::Running);
    updater.on_fetch_failed(error("a"));
    assert_eq!(updater.on_fetch_failed(error("b")).action, Action::Halt);
    assert_eq!(updater.state(), State::Stopped);
}

#[test]
fn limit_of_one_stops_at_the_first_failure() {
    let log = Log::default();
    let mut updater = running(1, 0, &log);
    let notice = updater.on_fetch_failed(error("down"));
    let reason = StopReason::RetrievalFailed { attempts: 1, error: error("down") };
    assert_eq!(notice.action, Action::Halt);
    assert_eq!(notice.events.len(), 2);
    assert_eq!(updater.stop_reason(), Some(&reason));
}

#[test]
fn limit_of_zero_stops_at_the_first_failure() {
    let log = Log::default();
    let mut updater = running(0, 0, &log);
    let round = updater.on_fetched(batch(vec![update(1, "fine")], 1));
    assert_eq!(round.action, Action::Fetch { since_offset: 1, delay: 0 });
    let notice = updater.on_fetch_failed(error("down"));
    let reason = StopReason::RetrievalFailed { attempts: 1, error: error("down") };
    assert_eq!(
        notice,
        Notice {
            events: vec![
                Event::RetrievalFailed { attempt: 1, error: error("down") },
                Event::UpdaterStopped { reason: reason.clone() },
            ],
            action: Action::Halt,
        }
    );
    assert_eq!(updater.stop_reason(), Some(&reason));
}

#[test]
fn largest_limit_keeps_retrying() {
    let log = Log::default();
    let mut updater = running(u32::MAX, 0, &log);
    for attempt in 1..=1000u32 {
        let notice = updater.on_fetch_failed(error("again"));
        assert_eq!(
            notice.events,
            vec![Event::RetrievalFailed { attempt, error: error("again") }]
        );
        let delay = 1000 + 500 * (attempt as u64 - 1);
        assert_eq!(notice.action, Action::Fetch { since_offset: 0, delay });
    }
    assert_eq!(updater.state(), State::Running);
}

#[test]
fn stop_request_stops_a_running_updater() {
    let log = Log::default();
    let mut updater = running(3, 0, &log);
    let notice = updater.stop();
    assert_eq!(
        notice,
        Notice {
            events: vec![Event::UpdaterStopped { reason: StopReason::Requested }],
            action: Action::Halt,
        }
    );
    assert_eq!(updater.state(), State::Stopped);
    assert_eq!(updater.stop_reason(), Some(&StopReason::Requested));
}

#[test]
fn stop_request_leaves_an_idle_updater_idle() {
    let log = Log::default();
    let mut updater: Bot = Updater::new(config(3));
    fallback(&mut updater, &log);
    assert_eq!(updater.stop(), Notice { events: Vec::new(), action: Action::Halt });
    assert_eq!(updater.state(), State::Idle);
    assert_eq!(updater.start(), Ok(Action::Fetch { since_offset: 0, delay: 0 }));
}

#[test]
fn stopped_updater_stays_stopped() {
    let log = Log::default();
    let mut updater = running(3, 7, &log);
    updater.stop();
    assert_eq!(updater.stop(), Notice { events: Vec::new(), action: Action::Halt });
    let round = updater.on_fetched(batch(vec![update(8, "late")], 8));
    assert_eq!(round, Round { results: Vec::new(), action: Action::Halt });
    assert!(log.borrow().is_empty());
    let notice = updater.on_fetch_failed(error("late"));
    assert_eq!(notice, Notice { events: Vec::new(), action: Action::Halt });
    assert_eq!(updater.state(), State::Stopped);
    assert_eq!(updater.stop_reason(), Some(&StopReason::Requested));
}

#[test]
fn idle_updater_takes_no_retrievals() {
    let log = Log::default();
    let mut updater: Bot = Updater::with_cursor(config(3), 7);
    fallback(&mut updater, &log);
    let round = updater.on_fetched(batch(vec![update(8, "early")], 8));
    assert_eq!(round, Round { results: Vec::new(), action: Action::Halt });
    let notice = updater.on_fetch_failed(error("early"));
    assert_eq!(notice, Notice { events: Vec::new(), action: Action::Halt });
    assert!(log.borrow().is_empty());
    assert_eq!(updater.state(), State::Idle);
    assert_eq!(updater.start(), Ok(Action::Fetch { since_offset: 7, delay: 0 }));
}

#[test]
fn handler_failures_and_unhandled_updates_do_not_stop_the_updater() {
    let log = Log::default();
    let mut updater: Bot = Updater::new(config(1));
    let boom = Recorder { name: "boom", log: log.clone(), fails: true };
    let command = Command { name: "/boom".to_string() };
    assert_eq!(updater.register(Box::new(command), boom), Ok(()));
    let ok = Recorder { name: "ok", log: log.clone(), fails: false };
    let command = Command { name: "/ok".to_string() };
    assert_eq!(updater.register(Box::new(command), ok), Ok(()));
    assert!(updater.start().is_ok());

    let round = updater.on_fetched(batch(
        vec![update(1, "/boom"), update(2, "what"), update(3, "/ok")],
        3,
    ));
    assert_eq!(round.action, Action::Fetch { since_offset: 3, delay: 0 });
    assert_eq!(*log.borrow(), vec![("boom", 1), ("ok", 3)]);
    assert_eq!(updater.state(), State::Running);
    assert_eq!(
        Event::report_all(round.results),
        vec![
            Event::HandlerFailed {
                binding: 0,
                error: HandlerError::new("boom failed on 1".to_string()),
            },
            Event::Unhandled { update: update(2, "what") },
        ]
    );
}

#[test]
fn retrieval_error_duplicate_is_equal() {
    let first = error("same");
    assert_eq!(first.duplicate(), first);
}
