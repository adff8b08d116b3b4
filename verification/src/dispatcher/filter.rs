use vstd::prelude::*;
use vstd::string::StrSliceExecFns;

use crate::dispatcher::update::Update;

verus! {

/// A predicate over incoming values.
///
/// `accepts` is the predicate itself; `evaluate` computes it. Being a spec
/// function, `accepts` gives the same answer every time it is asked about the
/// same value.
pub trait Filter<T> {
    spec fn accepts(&self, value: &T) -> bool;

    fn evaluate(&self, value: &T) -> (verdict: bool)
        ensures
            verdict == self.accepts(value),
    ;
}

/// A boxed filter is the filter in the box; this lets filters of different
/// types stand in one registry as `Box<dyn Filter<T>>`.
impl<T, F: Filter<T> + ?Sized> Filter<T> for Box<F> {
    open spec fn accepts(&self, value: &T) -> bool {
        (**self).accepts(value)
    }

    fn evaluate(&self, value: &T) -> (verdict: bool) {
        (**self).evaluate(value)
    }
}

/// Accepts every value.
#[derive(Debug, Clone, Copy)]
pub struct Always;

impl<T> Filter<T> for Always {
    open spec fn accepts(&self, value: &T) -> bool {
        true
    }

    fn evaluate(&self, value: &T) -> (verdict: bool) {
        true
    }
}

/// Accepts exactly the values that the inner filter rejects.
#[derive(Debug, Clone)]
pub struct Not<F>(pub F);

impl<T, F: Filter<T>> Filter<T> for Not<F> {
    open spec fn accepts(&self, value: &T) -> bool {
        !self.0.accepts(value)
    }

    fn evaluate(&self, value: &T) -> (verdict: bool) {
        !self.0.evaluate(value)
    }
}

/// Accepts the values that both filters accept. The second filter is only
/// evaluated when the first accepts.
#[derive(Debug, Clone)]
pub struct And<A, B>(pub A, pub B);

impl<T, A: Filter<T>, B: Filter<T>> Filter<T> for And<A, B> {
    open spec fn accepts(&self, value: &T) -> bool {
        self.0.accepts(value) && self.1.accepts(value)
    }

    fn evaluate(&self, value: &T) -> (verdict: bool) {
        self.0.evaluate(value) && self.1.evaluate(value)
    }
}

/// Accepts the values that at least one of the two filters accepts. The
/// second filter is only evaluated when the first rejects.
#[derive(Debug, Clone)]
pub struct Or<A, B>(pub A, pub B);

impl<T, A: Filter<T>, B: Filter<T>> Filter<T> for Or<A, B> {
    open spec fn accepts(&self, value: &T) -> bool {
        self.0.accepts(value) || self.1.accepts(value)
    }

    fn evaluate(&self, value: &T) -> (verdict: bool) {
        self.0.evaluate(value) || self.1.evaluate(value)
    }
}

/// Accepts the values that every filter of the list accepts; an empty list
/// accepts everything.
#[derive(Debug, Clone)]
pub struct AllOf<F>(pub Vec<F>);

impl<T, F: Filter<T>> Filter<T> for AllOf<F> {
    open spec fn accepts(&self, value: &T) -> bool {
        forall|i: int| 0 <= i < self.0@.len() ==> (#[trigger] self.0@[i]).accepts(value)
    }

    fn evaluate(&self, value: &T) -> (verdict: bool) {
        let mut i: usize = 0;
        while i < self.0.len()
            invariant
                i <= self.0@.len(),
                forall|j: int| 0 <= j < i ==> (#[trigger] self.0@[j]).accepts(value),
            decreases self.0@.len() - i,
        {
            if !self.0[i].evaluate(value) {
                return false;
            }
            i += 1;
        }
        true
    }
}

/// Accepts the values that at least one filter of the list accepts; an empty
/// list accepts nothing.
#[derive(Debug, Clone)]
pub struct AnyOf<F>(pub Vec<F>);

impl<T, F: Filter<T>> Filter<T> for AnyOf<F> {
    open spec fn accepts(&self, value: &T) -> bool {
        exists|i: int| 0 <= i < self.0@.len() && (#[trigger] self.0@[i]).accepts(value)
    }

    fn evaluate(&self, value: &T) -> (verdict: bool) {
        let mut i: usize = 0;
        while i < self.0.len()
            invariant
                i <= self.0@.len(),
                forall|j: int| 0 <= j < i ==> !(#[trigger] self.0@[j]).accepts(value),
            decreases self.0@.len() - i,
        {
            if self.0[i].evaluate(value) {
                return true;
            }
            i += 1;
        }
        false
    }
}

/// Whether `text` is the command `name`: the name alone, or the name followed
/// by a space and whatever arguments come after it.
pub open spec fn is_command(text: Seq<char>, name: Seq<char>) -> bool {
    &&& name.len() <= text.len()
    &&& forall|i: int| 0 <= i < name.len() ==> text[i] == name[i]
    &&& (text.len() == name.len() || text[name.len() as int] == ' ')
}

/// Accepts the updates whose text is the given command.
#[derive(Debug, Clone)]
pub struct Command {
    pub name: String,
}

impl Filter<Update> for Command {
    open spec fn accepts(&self, value: &Update) -> bool {
        is_command(value.text@, self.name@)
    }

    fn evaluate(&self, value: &Update) -> (verdict: bool) {
        let text = value.text.as_str();
        let name = self.name.as_str();
        let text_len = text.unicode_len();
        let name_len = name.unicode_len();
        if name_len > text_len {
            return false;
        }
        let mut i: usize = 0;
        while i < name_len
            invariant
                i <= name_len <= text_len,
                name@ == self.name@,
                text@ == value.text@,
                name_len == name@.len(),
                text_len == text@.len(),
                forall|j: int| 0 <= j < i ==> text@[j] == name@[j],
            decreases name_len - i,
        {
            if text.get_char(i) != name.get_char(i) {
                return false;
            }
            i += 1;
        }
        text_len == name_len || text.get_char(name_len) == ' '
    }
}

} // verus!
