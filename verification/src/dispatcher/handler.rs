use vstd::prelude::*;

verus! {

/// Why a handler gave up on a value.
#[derive(Debug, PartialEq, Eq, Clone)]
pub struct HandlerError {
    pub message: String,
}

impl HandlerError {
    pub fn new(message: String) -> (error: HandlerError)
        ensures
            error == (HandlerError { message }),
    {
        HandlerError { message }
    }
}

/// An action run on a value that a filter accepted.
///
/// Nothing is promised about the outcome: a handler may do I/O and may fail.
/// A failure comes back as a value and is reported by the dispatcher; it
/// never unwinds through it.
pub trait Handler<T> {
    fn execute(&self, value: &T) -> (outcome: Result<(), HandlerError>);
}

/// A boxed handler is the handler in the box; this lets handlers of
/// different types stand in one registry as `Box<dyn Handler<T>>`.
impl<T, H: Handler<T> + ?Sized> Handler<T> for Box<H> {
    fn execute(&self, value: &T) -> (outcome: Result<(), HandlerError>)
        ensures
            call_ensures(H::execute, (&**self, value), outcome),
    {
        (**self).execute(value)
    }
}

} // verus!
