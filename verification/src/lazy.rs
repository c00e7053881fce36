//! The initialize-once cell whose behaviour the lazy-global generator's
//! emitted code has at run time.
//!
//! A [`LazyCell`] starts uninitialized, runs a caller-supplied initializer
//! at most once on first demand, and from then on hands out the one cached
//! value unchanged for the rest of its lifetime. (In the emitted code a
//! one-shot gate serializes concurrent first access; the state transition
//! and caching it guards are what is modelled and proved here.)

use vstd::prelude::*;

verus! {

/// A cell holding a value that is computed at most once.
pub struct LazyCell<T> {
    slot: Option<T>,
}

impl<T> LazyCell<T> {
    /// Whether the initializer has run.
    pub closed spec fn is_initialized(&self) -> bool {
        self.slot is Some
    }

    /// The cached value, once initialized.
    pub closed spec fn value(&self) -> T
        recommends
            self.is_initialized(),
    {
        self.slot.unwrap()
    }

    /// A fresh cell: no computation has run.
    pub fn new() -> (r: Self)
        ensures
            !r.is_initialized(),
    {
        LazyCell { slot: None }
    }

    /// Run the initializer if, and only if, the cell is still uninitialized,
    /// and cache its result. Returns whether the initializer ran.
    ///
    /// An already-initialized cell is left exactly as it was — the
    /// initializer is not evaluated a second time and the cached value does
    /// not change.
    pub fn force<F: FnOnce() -> T>(&mut self, init: F) -> (ran: bool)
        requires
            !old(self).is_initialized() ==> call_requires(init, ()),
        ensures
            final(self).is_initialized(),
            ran == !old(self).is_initialized(),
            old(self).is_initialized() ==> *final(self) == *old(self),
            ran ==> call_ensures(init, (), final(self).value()),
    {
        if self.slot.is_none() {
            let v = init();
            self.slot = Some(v);
            true
        } else {
            false
        }
    }

    /// The dereference operation of an emitted lazy global: run the
    /// initializer if this is the first access, then hand out the cached
    /// value. An initialized cell is left untouched and the initializer is
    /// not evaluated again.
    pub fn get_or_init<F: FnOnce() -> T>(&mut self, init: F) -> (r: &T)
        requires
            !old(self).is_initialized() ==> call_requires(init, ()),
        ensures
            final(self).is_initialized(),
            *r == final(self).value(),
            old(self).is_initialized() ==> *final(self) == *old(self),
            !old(self).is_initialized() ==> call_ensures(init, (), final(self).value()),
    {
        self.force(init);
        self.get()
    }

    /// Read the cached value. Every read after initialization returns the
    /// same value, since nothing ever writes the slot again.
    pub fn get(&self) -> (r: &T)
        requires
            self.is_initialized(),
        ensures
            *r == self.value(),
    {
        match &self.slot {
            Some(v) => v,
            None => vstd::pervasive::unreached(),
        }
    }
}

} // verus!
