use vstd::prelude::*;

use crate::error::BindingError;

verus! {

/// A one-shot holder: created empty, populated exactly once, then read
/// through guarded access.
pub enum Container<T> {
    Empty,
    Owned(T),
}

impl<T> Container<T> {
    /// An empty holder.
    pub fn new() -> (r: Self)
        ensures
            r is Empty,
    {
        Container::Empty
    }

    /// Installs the capability. Populating a holder twice is a logic error,
    /// so the holder must still be empty.
    pub fn to_owned(&mut self, o: T)
        requires
            *old(self) is Empty,
        ensures
            *final(self) == Container::Owned(o),
    {
        *self = Container::Owned(o);
    }

    /// Whether the holder has been populated.
    pub fn is_initialized(&self) -> (r: bool)
        ensures
            r == (self is Owned),
    {
        match self {
            Container::Empty => false,
            Container::Owned(_) => true,
        }
    }

    /// Applies `closure` to the held capability, or fails with
    /// `NotInitialized` when the holder is empty.
    pub fn execute<F, U>(&self, closure: F) -> (r: Result<U, BindingError>)
        where
            F: FnOnce(&T) -> U,
        requires
            self is Owned ==> closure.requires((&self->Owned_0,)),
        ensures
            self is Empty ==> r == Err::<U, BindingError>(BindingError::NotInitialized),
            self is Owned ==> (r is Ok && closure.ensures((&self->Owned_0,), r->Ok_0)),
    {
        match self {
            Container::Empty => Err(BindingError::NotInitialized),
            Container::Owned(val) => Ok(closure(val)),
        }
    }
}

} // verus!
