//! The pool of browser contexts that page loads borrow from and give back to.

use vstd::prelude::*;

verus! {

/// A stack of idle contexts: the one given back last is lent out first.
pub struct ContextPool<T> {
    idle: Vec<T>,
}

impl<T> View for ContextPool<T> {
    type V = Seq<T>;

    /// The idle contexts, the next to be lent out last.
    closed spec fn view(&self) -> Seq<T> {
        self.idle@
    }
}

impl<T> ContextPool<T> {
    /// A pool holding `contexts`, the last one to be lent out first.
    pub fn new(contexts: Vec<T>) -> (p: Self)
        ensures
            p@ == contexts@,
    {
        ContextPool { idle: contexts }
    }

    /// The number of idle contexts.
    pub fn len(&self) -> (n: usize)
        ensures
            n == self@.len(),
    {
        self.idle.len()
    }

    /// Lends out the most recently returned context, or `None` when all are
    /// lent out (the caller then waits and asks again).
    pub fn try_acquire(&mut self) -> (c: Option<T>)
        ensures
            old(self)@.len() == 0 ==> c is None && final(self)@ == old(self)@,
            old(self)@.len() > 0 ==> c == Some(old(self)@.last()) && final(self)@ == old(
                self,
            )@.drop_last(),
    {
        self.idle.pop()
    }

    /// Takes a context back.
    pub fn release(&mut self, context: T)
        ensures
            final(self)@ == old(self)@.push(context),
    {
        self.idle.push(context);
    }
}

} // verus!
