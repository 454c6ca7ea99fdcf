//! Write-once holder of the running application's handle.
//!
//! The listener reaches the application through a single-slot registry:
//! empty at startup, filled exactly once when the application is ready,
//! never emptied again.  A second install attempt is refused, which the
//! caller treats as a fatal startup error.

use vstd::prelude::*;

verus! {

/// Refusal of a second install: the slot was already occupied.
#[derive(Clone, Copy, Debug, PartialEq, Eq, Structural)]
pub enum RegistryError {
    AlreadyInstalled,
}

impl RegistryError {
    /// The diagnostic shown when application startup aborts on a
    /// double install.
    pub fn message(&self) -> (r: String)
        ensures
            r@ == "application handle assignment error"@,
    {
        String::from_str("application handle assignment error")
    }
}

/// Single-slot, write-once cell holding the application handle.
///
/// State machine: empty until the one successful `set`, occupied with
/// that very handle ever after.
pub struct HandleRegistry<T> {
    slot: Option<T>,
}

impl<T> HandleRegistry<T> {
    /// The slot's abstract state: absent, or the installed handle.
    pub closed spec fn handle(&self) -> Option<T> {
        self.slot
    }

    /// The one-shot transition taken by `set`: the state after the call,
    /// and whether the install was accepted.
    pub open spec fn set_outcome(state: Option<T>, h: T) -> (Option<T>, bool) {
        match state {
            None => (Some(h), true),
            Some(prev) => (Some(prev), false),
        }
    }

    /// A fresh registry holds no handle.
    pub fn new() -> (r: Self)
        ensures
            r.handle() is None,
    {
        HandleRegistry { slot: None }
    }

    /// Installs the handle if the slot is empty; refuses otherwise and
    /// leaves the slot untouched.  At most one call ever succeeds.
    pub fn set(&mut self, h: T) -> (r: Result<(), RegistryError>)
        ensures
            (final(self).handle(), r is Ok) == Self::set_outcome(old(self).handle(), h),
            old(self).handle() is None ==> r is Ok && final(self).handle() == Some(h),
            old(self).handle() is Some ==> r is Err && final(self).handle() == old(self).handle(),
    {
        if self.slot.is_some() {
            Err(RegistryError::AlreadyInstalled)
        } else {
            self.slot = Some(h);
            Ok(())
        }
    }

    /// Non-blocking read: the installed handle, or absent.  Never waits
    /// for initialization, so callers must tolerate absence.
    pub fn get(&self) -> (r: Option<&T>)
        ensures
            r matches Some(h) ==> self.handle() == Some(*h),
            r is None <==> self.handle() is None,
    {
        self.slot.as_ref()
    }
}

/// Write-once: from the empty slot a first install is accepted, and a
/// second install, whatever handle it carries, is refused and leaves the
/// first handle in place.
pub proof fn lemma_registry_write_once<T>(h1: T, h2: T)
    ensures
        ({
            let (s1, ok1) = HandleRegistry::<T>::set_outcome(None, h1);
            let (s2, ok2) = HandleRegistry::<T>::set_outcome(s1, h2);
            ok1 && s1 == Some(h1) && !ok2 && s2 == Some(h1)
        }),
{
}

} // verus!
