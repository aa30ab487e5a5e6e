//! One-shot ownership handoff between a producing context and a consuming
//! (interrupt-style) context.
//!
//! A [`Global`] slot is loaded by the producing context; an [`Interrupt`]
//! cell then claims the value exactly once and owns it exclusively from then
//! on. Every access to the shared slot happens inside a critical section, so
//! the slot is never observed half-written.

use vstd::prelude::*;

verus! {

/// Swap `value` into the slot, handing back what the slot held before.
fn exchange<T>(slot: &mut Option<T>, value: Option<T>) -> (prev: Option<T>)
    ensures
        *final(slot) == value,
        prev == *old(slot),
{
    let prev = slot.take();
    *slot = value;
    prev
}

/// Relies on `critical_section::with`: it runs the given closure exactly
/// once, with the platform's critical section held for the closure's
/// duration, and returns the closure's result unchanged. The closure here
/// only calls the verified [`exchange`] above.
#[verifier::external_body]
fn exchange_in_critical_section<T>(slot: &mut Option<T>, value: Option<T>) -> (prev: Option<T>)
    ensures
        *final(slot) == value,
        prev == *old(slot),
{
    critical_section::with(|_cs| exchange(slot, value))
}

/// The global side of the handoff: a slot that the producing context loads.
pub struct Global<T> {
    inner: Option<T>,
}

impl<T> View for Global<T> {
    type V = Option<T>;

    closed spec fn view(&self) -> Option<T> {
        self.inner
    }
}

impl<T> Global<T> {
    /// Create a new, empty, slot.
    pub fn empty() -> (g: Global<T>)
        ensures
            g@ is None,
    {
        Global { inner: None }
    }

    /// Load a value into the slot, inside a critical section.
    ///
    /// Returns the old value, if any; disposing of it is the caller's
    /// responsibility.
    pub fn load(&mut self, value: T) -> (prev: Option<T>)
        ensures
            final(self)@ == Some(value),
            prev == old(self)@,
    {
        exchange_in_critical_section(&mut self.inner, Some(value))
    }
}

/// The local side of the handoff: a cell private to the consuming context.
///
/// The cell starts empty. Its first use takes the value out of a [`Global`]
/// slot; from then on the cell owns the value exclusively and the slot is
/// never touched again on its behalf.
pub struct Interrupt<T> {
    inner: Option<T>,
}

impl<T> View for Interrupt<T> {
    type V = Option<T>;

    closed spec fn view(&self) -> Option<T> {
        self.inner
    }
}

impl<T> Interrupt<T> {
    /// Create a new, empty, cell.
    pub fn empty() -> (c: Interrupt<T>)
        ensures
            c@ is None,
    {
        Interrupt { inner: None }
    }

    /// Grab a mutable reference to the contents.
    ///
    /// If the cell is empty, the contents are first taken out of the given
    /// global slot, inside a critical section, leaving that slot empty. The
    /// slot must have been loaded before the first claim: a claim against a
    /// never-loaded slot is a programming error, ruled out by the
    /// precondition. If the cell already holds a value, the slot is not
    /// touched at all and the existing value is handed back.
    pub fn get_or_init_with(&mut self, global: &mut Global<T>) -> (r: &mut T)
        requires
            old(self)@ is Some || old(global)@ is Some,
        ensures
            old(self)@ is Some ==> *r == old(self)@->Some_0 && final(global)@ == old(global)@,
            old(self)@ is None ==> *r == old(global)@->Some_0 && final(global)@ is None,
            final(self)@ == Some(*final(r)),
    {
        if self.inner.is_none() {
            let taken = exchange_in_critical_section(&mut global.inner, None);
            self.inner = taken;
        }
        match &mut self.inner {
            Some(r) => r,
            None => vstd::pervasive::unreached(),
        }
    }
}

} // verus!
