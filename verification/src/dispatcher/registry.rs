use vstd::prelude::*;

verus! {

/// A filter paired with the handler that runs when the filter accepts.
///
/// A binding's rank is its position in the registry: bindings registered
/// earlier are asked first.
#[derive(Debug)]
pub struct Binding<F, H> {
    pub filter: F,
    pub handler: H,
}

/// Registration was attempted on a sealed registry.
#[derive(Debug, PartialEq, Eq, Clone, Copy)]
pub struct RegistrationClosed;

/// The ordered list of bindings.
///
/// The view is the bindings in registration order. A registry only grows, and
/// only at its end, until it is sealed; a sealed registry never changes.
#[derive(Debug)]
pub struct Registry<F, H> {
    bindings: Vec<Binding<F, H>>,
    sealed: bool,
}

impl<F, H> View for Registry<F, H> {
    type V = Seq<Binding<F, H>>;

    closed spec fn view(&self) -> Seq<Binding<F, H>> {
        self.bindings@
    }
}

impl<F, H> Registry<F, H> {
    /// Whether registration has been closed.
    pub closed spec fn is_sealed(&self) -> bool {
        self.sealed
    }

    /// An empty registry, open for registration.
    pub fn new() -> (registry: Self)
        ensures
            registry@ == Seq::<Binding<F, H>>::empty(),
            !registry.is_sealed(),
    {
        Registry { bindings: Vec::new(), sealed: false }
    }

    /// Appends a binding behind every binding registered so far.
    ///
    /// A sealed registry rejects the binding and stays as it was.
    pub fn register(&mut self, filter: F, handler: H) -> (result: Result<(), RegistrationClosed>)
        ensures
            result is Ok <==> !old(self).is_sealed(),
            result is Ok ==> final(self)@ == old(self)@.push(Binding { filter, handler }),
            result is Err ==> final(self)@ == old(self)@,
            final(self).is_sealed() == old(self).is_sealed(),
    {
        if self.sealed {
            return Err(RegistrationClosed);
        }
        self.bindings.push(Binding { filter, handler });
        Ok(())
    }

    /// Closes registration. Sealing a sealed registry changes nothing.
    pub fn seal(&mut self)
        ensures
            final(self).is_sealed(),
            final(self)@ == old(self)@,
    {
        self.sealed = true;
    }

    /// Whether `seal` has been called.
    pub fn sealed(&self) -> (sealed: bool)
        ensures
            sealed == self.is_sealed(),
    {
        self.sealed
    }

    /// The bindings, in registration order.
    pub fn bindings(&self) -> (bindings: &Vec<Binding<F, H>>)
        ensures
            bindings@ == self@,
    {
        &self.bindings
    }

    /// The number of bindings.
    pub fn len(&self) -> (len: usize)
        ensures
            len == self@.len(),
    {
        self.bindings.len()
    }

    /// Whether no binding has been registered.
    pub fn is_empty(&self) -> (empty: bool)
        ensures
            empty == (self@.len() == 0),
    {
        self.bindings.len() == 0
    }
}

} // verus!
