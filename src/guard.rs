//! Exclusive ownership of one spawned watcher process.
//!
//! A guard holds the handle of one process until the handle is taken out of
//! it. Taking moves the handle, so only one code path can ever terminate a
//! given process. The driver terminates and reaps whatever a guard still
//! holds when the guard goes out of scope.
use vstd::prelude::*;

verus! {

/// Owns the handle of a spawned process, labelled with its role.
pub struct ProcessGuard<H> {
    child: Option<H>,
    name: String,
}

impl<H> ProcessGuard<H> {
    /// The handle still held, if any.
    pub closed spec fn held(&self) -> Option<H> {
        self.child
    }

    /// The label given at construction.
    pub closed spec fn label(&self) -> Seq<char> {
        self.name@
    }

    /// A guard that holds `child`.
    pub fn new(child: H, name: &str) -> (r: Self)
        ensures
            r.held() == Some(child),
            r.label() == name@,
    {
        ProcessGuard { child: Some(child), name: name.to_string() }
    }

    /// Moves the handle out, leaving the guard empty; an empty guard yields
    /// `None`.
    pub fn take(&mut self) -> (r: Option<H>)
        ensures
            r == old(self).held(),
            final(self).held() is None,
            final(self).label() == old(self).label(),
    {
        self.child.take()
    }

    /// Whether the guard still holds a handle.
    pub fn holds(&self) -> (r: bool)
        ensures
            r == self.held() is Some,
    {
        self.child.is_some()
    }

    /// A mutable borrow of the held handle, for polling it in place.
    pub fn handle_mut(&mut self) -> (r: Option<&mut H>)
        ensures
            final(self).label() == old(self).label(),
            r is None <==> old(self).held() is None,
            r is None ==> final(self).held() is None,
            r matches Some(h) ==> final(self).held() == Some(*final(h)) && old(self).held()
                == Some(*h),
    {
        self.child.as_mut()
    }

    /// The label given at construction.
    pub fn name(&self) -> (r: &str)
        ensures
            r@ == self.label(),
    {
        self.name.as_str()
    }
}

} // verus!
