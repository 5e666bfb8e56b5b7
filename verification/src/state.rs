//! The long-lived resources of the application and the scoped access to them.

use vstd::prelude::*;
use std::sync::Arc;
use std::sync::Mutex;
use std::sync::MutexGuard;
use crate::diagram::Diagram;
use crate::system::ParsedSystem;
use crate::sync::{LockLedger, Resource, guarded_mut, lock_mutex, new_mutex, try_lock_mutex};

verus! {

/// Owner of the three shared resources, each behind a lock of its own: the
/// parsed system (absent until a parse succeeds), the diagram derived from
/// it (absent until one is generated), and the font resource.
///
/// `S` is the parsed system, `G` the geometry of a diagram and `F` the font
/// resource; none of them is looked into here.
///
/// The locks are taken by the operations of this crate alone, each for the
/// time of one call, and no guard is ever handed out. A function handed to
/// an operation runs while that operation holds its locks; it must not call
/// an operation that waits for a lock.
#[verifier::reject_recursive_types(S)]
#[verifier::reject_recursive_types(G)]
#[verifier::reject_recursive_types(F)]
pub struct State<S, G, F> {
    manycore: Arc<Mutex<Option<ParsedSystem<S>>>>,
    svg: Arc<Mutex<Option<Diagram<G>>>>,
    font_database: Arc<Mutex<F>>,
}

/// Puts `value` in `slot` and hands back what the slot held. Putting
/// `None` clears the slot.
pub fn exchange<T>(slot: &mut Option<T>, value: Option<T>) -> (previous: Option<T>)
    ensures
        *final(slot) == value,
        previous == *old(slot),
{
    let previous = slot.take();
    *slot = value;
    previous
}

impl<S, G, F> State<S, G, F> {
    /// A store without system or diagram, seeded with the font resource.
    pub fn new(font_database: F) -> (state: State<S, G, F>) {
        State {
            manycore: Arc::new(new_mutex(None)),
            svg: Arc::new(new_mutex(None)),
            font_database: Arc::new(new_mutex(font_database)),
        }
    }

    /// Waits for the system lock.
    pub(crate) fn lock_system<'a>(&'a self, ledger: &mut LockLedger) -> (guard: Result<
        MutexGuard<'a, Option<ParsedSystem<S>>>,
        String,
    >)
        requires
            old(ledger).may_acquire(Resource::System),
        ensures
            guard is Ok ==> *final(ledger) == old(ledger).with(Resource::System),
            guard is Err ==> *final(ledger) == *old(ledger),
    {
        let guard = lock_mutex(&*self.manycore, Resource::System, ledger);
        if guard.is_ok() {
            ledger.record(Resource::System);
        }
        guard
    }

    /// Takes the system lock if it is free.
    pub(crate) fn try_lock_system<'a>(&'a self, ledger: &mut LockLedger) -> (guard: Option<
        MutexGuard<'a, Option<ParsedSystem<S>>>,
    >)
        requires
            old(ledger).may_acquire(Resource::System),
        ensures
            guard is Some ==> *final(ledger) == old(ledger).with(Resource::System),
            guard is None ==> *final(ledger) == *old(ledger),
    {
        let guard = try_lock_mutex(&*self.manycore);
        if guard.is_some() {
            ledger.record(Resource::System);
        }
        guard
    }

    /// Waits for the diagram lock.
    pub(crate) fn lock_diagram<'a>(&'a self, ledger: &mut LockLedger) -> (guard: Result<
        MutexGuard<'a, Option<Diagram<G>>>,
        String,
    >)
        requires
            old(ledger).may_acquire(Resource::Diagram),
        ensures
            guard is Ok ==> *final(ledger) == old(ledger).with(Resource::Diagram),
            guard is Err ==> *final(ledger) == *old(ledger),
    {
        let guard = lock_mutex(&*self.svg, Resource::Diagram, ledger);
        if guard.is_ok() {
            ledger.record(Resource::Diagram);
        }
        guard
    }

    /// Takes the diagram lock if it is free.
    pub(crate) fn try_lock_diagram<'a>(&'a self, ledger: &mut LockLedger) -> (guard: Option<
        MutexGuard<'a, Option<Diagram<G>>>,
    >)
        requires
            old(ledger).may_acquire(Resource::Diagram),
        ensures
            guard is Some ==> *final(ledger) == old(ledger).with(Resource::Diagram),
            guard is None ==> *final(ledger) == *old(ledger),
    {
        let guard = try_lock_mutex(&*self.svg);
        if guard.is_some() {
            ledger.record(Resource::Diagram);
        }
        guard
    }

    /// Waits for the font lock.
    pub(crate) fn lock_font<'a>(&'a self, ledger: &mut LockLedger) -> (guard: Result<
        MutexGuard<'a, F>,
        String,
    >)
        requires
            old(ledger).may_acquire(Resource::Font),
        ensures
            guard is Ok ==> *final(ledger) == old(ledger).with(Resource::Font),
            guard is Err ==> *final(ledger) == *old(ledger),
    {
        let guard = lock_mutex(&*self.font_database, Resource::Font, ledger);
        if guard.is_ok() {
            ledger.record(Resource::Font);
        }
        guard
    }

    /// Takes the font lock if it is free.
    #[allow(dead_code)]
    pub(crate) fn try_lock_font<'a>(&'a self, ledger: &mut LockLedger) -> (guard: Option<
        MutexGuard<'a, F>,
    >)
        requires
            old(ledger).may_acquire(Resource::Font),
        ensures
            guard is Some ==> *final(ledger) == old(ledger).with(Resource::Font),
            guard is None ==> *final(ledger) == *old(ledger),
    {
        let guard = try_lock_mutex(&*self.font_database);
        if guard.is_some() {
            ledger.record(Resource::Font);
        }
        guard
    }

    /// Replaces the stored system as a whole, or clears it with `None`,
    /// and hands back the system that was stored. Waits for the system
    /// lock. The stored diagram is left as it is: regenerating it is up to
    /// the caller. A poisoned lock is reported with the lock's own words
    /// and `system` is dropped.
    pub fn replace_system(&self, system: Option<ParsedSystem<S>>) -> (previous: Result<
        Option<ParsedSystem<S>>,
        String,
    >) {
        let mut ledger = LockLedger::new();
        match self.lock_system(&mut ledger) {
            Ok(mut guard) => Ok(exchange(guarded_mut(&mut guard), system)),
            Err(poisoned) => Err(poisoned),
        }
    }

    /// Replaces the stored diagram as a whole, or clears it with `None`,
    /// and hands back the diagram that was stored. Waits for the diagram
    /// lock. A poisoned lock is reported with the lock's own words and
    /// `diagram` is dropped.
    pub fn replace_diagram(&self, diagram: Option<Diagram<G>>) -> (previous: Result<
        Option<Diagram<G>>,
        String,
    >) {
        let mut ledger = LockLedger::new();
        match self.lock_diagram(&mut ledger) {
            Ok(mut guard) => Ok(exchange(guarded_mut(&mut guard), diagram)),
            Err(poisoned) => Err(poisoned),
        }
    }
}

} // verus!
