use vstd::prelude::*;

verus! {

/// A holder of a value that the bar's tasks reach through; it reads as the
/// value it holds.
///
/// It owns its value: a clone is a separate copy, and a write through one
/// handle is not seen through another. Shared mutation between handles
/// (interior mutability) is not offered.
#[derive(Debug, Clone)]
pub struct RcCell<T> {
    inner: T,
}

impl<T> RcCell<T> {
    /// The value inside.
    pub closed spec fn value(&self) -> T {
        self.inner
    }

    pub fn new(inner: T) -> (r: RcCell<T>)
        ensures
            r.value() == inner,
    {
        RcCell { inner }
    }

    pub fn get(&self) -> (r: &T)
        ensures
            *r == self.value(),
    {
        &self.inner
    }

    /// Replaces the value inside.
    pub fn set(&mut self, value: T)
        ensures
            final(self).value() == value,
    {
        self.inner = value;
    }

    /// Takes the value out.
    pub fn into_inner(self) -> (r: T)
        ensures
            r == self.value(),
    {
        self.inner
    }
}

impl<T> core::ops::Deref for RcCell<T> {
    type Target = T;

    fn deref(&self) -> (r: &T)
        ensures
            *r == self.value(),
    {
        &self.inner
    }
}

impl<T> RcCell<Vec<T>> {
    /// Replaces the element at `index`.
    pub fn set_at(&mut self, index: usize, value: T)
        requires
            index < old(self).value()@.len(),
        ensures
            final(self).value()@ == old(self).value()@.update(index as int, value),
    {
        self.inner.set(index, value);
    }
}

} // verus!
