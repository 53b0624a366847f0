use vstd::prelude::*;

verus! {

/// A value that is either owned or borrowed.
///
/// Unlike `Cow`, reading through it does not require `T: Clone`.
pub enum MaybeOwned<'a, T> {
    Owned(T),
    Borrowed(&'a T),
}

impl<'a, T> MaybeOwned<'a, T> {
    /// The value that is held, whichever way it is held.
    pub open spec fn value(&self) -> T {
        match self {
            MaybeOwned::Owned(v) => *v,
            MaybeOwned::Borrowed(v) => **v,
        }
    }
}

impl<'a, T> core::ops::Deref for MaybeOwned<'a, T> {
    type Target = T;

    fn deref(&self) -> (r: &T)
        ensures
            *r == self.value(),
    {
        match self {
            MaybeOwned::Owned(v) => v,
            MaybeOwned::Borrowed(v) => v,
        }
    }
}

impl<'a, T: Clone> MaybeOwned<'a, T> {
    /// Turns the wrapper into an owned value: an owned value is moved out,
    /// a borrowed one is cloned.
    pub fn into_owned(self) -> (r: T)
        ensures
            match self {
                MaybeOwned::Owned(v) => r == v,
                MaybeOwned::Borrowed(v) => cloned(*v, r),
            },
    {
        match self {
            MaybeOwned::Owned(v) => v,
            MaybeOwned::Borrowed(v) => v.clone(),
        }
    }
}

} // verus!
