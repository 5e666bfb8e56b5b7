//! Lock acquisition for the shared resources, and the order in which an
//! operation may take them.

use vstd::prelude::*;
use std::sync::Mutex;
use std::sync::MutexGuard;

verus! {

/// `std::sync::Mutex`, carried through verified code as an opaque value.
#[verifier::external_type_specification]
#[verifier::external_body]
#[verifier::reject_recursive_types(T)]
pub struct ExMutex<T: ?Sized>(Mutex<T>);

/// `std::sync::MutexGuard`, carried through verified code as an opaque value.
#[verifier::external_type_specification]
#[verifier::external_body]
#[verifier::reject_recursive_types(T)]
pub struct ExMutexGuard<'a, T: ?Sized + 'a>(MutexGuard<'a, T>);

/// One of the three independently locked resources.
#[derive(Debug, Clone, Copy, PartialEq, Eq, Structural)]
pub enum Resource {
    System,
    Diagram,
    Font,
}

impl Resource {
    /// Position in the fixed acquisition order: system, then diagram, then font.
    pub open spec fn rank(self) -> int {
        match self {
            Resource::System => 0,
            Resource::Diagram => 1,
            Resource::Font => 2,
        }
    }
}

/// The resources one running operation has acquired so far.
///
/// Every public operation of the crate starts one empty ledger when it is
/// entered and hands it to each acquisition it makes. An acquisition is
/// admitted only while nothing at or after the wanted resource in the fixed
/// order is held, so no operation takes a lock twice and any two operations
/// take their common locks in the same order. Ledgers are started and locks
/// are taken inside the crate only, and no guard ever leaves an operation:
/// a thread that enters an operation holds none of the three locks.
#[derive(Debug, Clone, Copy, PartialEq, Eq, Structural)]
pub struct LockLedger {
    pub system: bool,
    pub diagram: bool,
    pub font: bool,
}

impl LockLedger {
    /// The ledger records `resource` as acquired.
    pub open spec fn holds(self, resource: Resource) -> bool {
        match resource {
            Resource::System => self.system,
            Resource::Diagram => self.diagram,
            Resource::Font => self.font,
        }
    }

    /// Nothing at or after `resource` in the fixed order is held.
    pub open spec fn may_acquire(self, resource: Resource) -> bool {
        forall|held: Resource| #[trigger] self.holds(held) ==> held.rank() < resource.rank()
    }

    /// The ledger once `resource` has been acquired.
    pub open spec fn with(self, resource: Resource) -> LockLedger {
        match resource {
            Resource::System => LockLedger { system: true, ..self },
            Resource::Diagram => LockLedger { diagram: true, ..self },
            Resource::Font => LockLedger { font: true, ..self },
        }
    }

    /// The ledger that records no acquisition.
    pub open spec fn new_spec() -> LockLedger {
        LockLedger { system: false, diagram: false, font: false }
    }

    /// The ledger of an operation that holds nothing yet. It is started
    /// once, on entry to a public operation, where the calling thread holds
    /// none of the three locks.
    #[verifier::when_used_as_spec(new_spec)]
    pub(crate) fn new() -> (ledger: LockLedger)
        ensures
            ledger == LockLedger::new_spec(),
            forall|resource: Resource| ledger.may_acquire(resource),
    {
        LockLedger { system: false, diagram: false, font: false }
    }

    /// Records that `resource` has been acquired.
    pub(crate) fn record(&mut self, resource: Resource)
        requires
            old(self).may_acquire(resource),
        ensures
            *final(self) == old(self).with(resource),
    {
        match resource {
            Resource::System => {
                self.system = true;
            },
            Resource::Diagram => {
                self.diagram = true;
            },
            Resource::Font => {
                self.font = true;
            },
        }
    }
}

/// Acquiring in ascending order keeps every later resource available.
pub proof fn ascending_acquisitions_are_admitted(
    ledger: LockLedger,
    first: Resource,
    second: Resource,
)
    requires
        ledger.may_acquire(first),
        first.rank() < second.rank(),
    ensures
        ledger.with(first).may_acquire(second),
{
    assert forall|held: Resource| #[trigger] ledger.with(first).holds(held) implies held.rank()
        < second.rank() by {
        if held != first {
            assert(ledger.holds(held));
        }
    }
}

/// Whatever one operation acquires, it acquires in the fixed order: a
/// second acquisition is admitted only for a resource that comes after the
/// first. Two operations can therefore never each hold a lock the other
/// waits for.
pub proof fn admitted_acquisitions_ascend(ledger: LockLedger, first: Resource, second: Resource)
    requires
        ledger.with(first).may_acquire(second),
    ensures
        first.rank() < second.rank(),
{
    assert(ledger.with(first).holds(first));
}

/// Blocking acquisition of the mutex that guards `resource`: `Mutex::lock`.
///
/// Returns the guard, or the text of the poison error when a holder of the
/// lock panicked. Nothing is said of the value behind the guard: another
/// thread may have stored anything since it was last seen.
///
/// A thread that already holds the mutex would never come back from the
/// call. `ledger` is the ledger of the running operation, which records
/// every lock the calling thread holds, and the call is admitted only while
/// it records neither `resource` nor anything after it.
#[verifier::external_body]
pub(crate) fn lock_mutex<'a, T>(
    mutex: &'a Mutex<T>,
    resource: Resource,
    ledger: &LockLedger,
) -> (guard: Result<MutexGuard<'a, T>, String>)
    requires
        ledger.may_acquire(resource),
{
    match mutex.lock() {
        Ok(guard) => Ok(guard),
        Err(poisoned) => Err(poisoned.to_string()),
    }
}

/// Non-blocking acquisition: `Mutex::try_lock`.
///
/// Returns the guard, or `None` when the lock is held elsewhere or poisoned.
/// It returns at once in either case.
#[verifier::external_body]
pub(crate) fn try_lock_mutex<'a, T>(mutex: &'a Mutex<T>) -> (guard: Option<MutexGuard<'a, T>>) {
    match mutex.try_lock() {
        Ok(guard) => Some(guard),
        Err(_) => None,
    }
}

/// Shared access to the value behind a guard: `MutexGuard::deref`.
#[verifier::external_body]
pub(crate) fn guarded<'g, 'a, T>(guard: &'g MutexGuard<'a, T>) -> (value: &'g T) {
    &**guard
}

/// Exclusive access to the value behind a guard: `MutexGuard::deref_mut`.
#[verifier::external_body]
pub(crate) fn guarded_mut<'g, 'a, T>(guard: &'g mut MutexGuard<'a, T>) -> (value: &'g mut T) {
    &mut **guard
}

/// A new unlocked mutex around `value`: `Mutex::new`.
#[verifier::external_body]
pub(crate) fn new_mutex<T>(value: T) -> (mutex: Mutex<T>) {
    Mutex::new(value)
}

} // verus!
