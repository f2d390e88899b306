//! The [`Engine`] and the reference count that governs the process-global
//! WAMR runtime.

use vstd::prelude::*;

use crate::error::Error;

verus! {

/// A handle on the process-global WAMR runtime.
///
/// An `Engine` is only handed out by [`RuntimeRefCount::acquire`], once the
/// runtime is known to be initialized; every module keeps the engine it was
/// loaded with.
#[derive(Debug, Clone, Copy)]
pub struct Engine {
    _runtime: (),
}

/// The number of live engines after an acquire from `count` live engines,
/// and whether that acquire succeeded. Initialization of the runtime is only
/// attempted, and can only fail, when no engine is live.
pub open spec fn spec_acquire(count: nat, init_succeeded: bool) -> (nat, bool) {
    if count == 0 && !init_succeeded {
        (count, false)
    } else {
        (count + 1, true)
    }
}

/// The number of live engines after one of `count` live engines is released,
/// and whether the runtime must then be torn down.
pub open spec fn spec_release(count: nat) -> (nat, bool) {
    ((count - 1) as nat, count == 1)
}

/// Reference count of live engines.
///
/// The WAMR runtime is a process-wide singleton: it is initialized when the
/// first engine is created and destroyed when the last one is released. The
/// embedding keeps one `RuntimeRefCount` for the process, asks it whether an
/// initialization is due, performs it, and reports the outcome back.
#[derive(Debug)]
pub struct RuntimeRefCount {
    count: usize,
}

impl View for RuntimeRefCount {
    type V = nat;

    /// The number of live engines.
    closed spec fn view(&self) -> nat {
        self.count as nat
    }
}

impl RuntimeRefCount {
    /// A count with no live engine; the runtime is not initialized.
    pub fn new() -> (rc: RuntimeRefCount)
        ensures
            rc@ == 0,
    {
        RuntimeRefCount { count: 0 }
    }

    /// The number of live engines.
    pub fn live(&self) -> (n: usize)
        ensures
            n as nat == self@,
    {
        self.count
    }

    /// Whether creating an engine now must first initialize the runtime.
    pub fn needs_init(&self) -> (b: bool)
        ensures
            b == (self@ == 0),
    {
        self.count == 0
    }

    /// Creates an engine. `init_succeeded` is the outcome of initializing the
    /// runtime, which is only consulted when no engine is live (see
    /// [`RuntimeRefCount::needs_init`]).
    ///
    /// Fails with [`Error::RuntimeInit`], leaving the count unchanged, when the
    /// runtime had to be initialized and that failed.
    pub fn acquire(&mut self, init_succeeded: bool) -> (r: Result<Engine, Error>)
        requires
            old(self)@ < usize::MAX,
        ensures
            (final(self)@, r is Ok) == spec_acquire(old(self)@, init_succeeded),
            r is Err ==> r == Err::<Engine, Error>(Error::RuntimeInit),
    {
        if self.count == 0 && !init_succeeded {
            return Err(Error::RuntimeInit);
        }
        self.count = self.count + 1;
        Ok(Engine { _runtime: () })
    }

    /// Releases one live engine. Returns whether it was the last one, in which
    /// case the runtime must be destroyed.
    pub fn release(&mut self) -> (destroy: bool)
        requires
            old(self)@ > 0,
        ensures
            (final(self)@, destroy) == spec_release(old(self)@),
    {
        self.count = self.count - 1;
        self.count == 0
    }
}

/// Creating an engine and releasing it again restores the count, and the
/// release tears the runtime down exactly when that engine was the only one.
pub proof fn lemma_acquire_release(count: nat)
    ensures
        spec_acquire(count, true).1,
        spec_release(spec_acquire(count, true).0) == (count, count == 0),
{
}

/// The runtime is torn down only by the release of the last live engine, and
/// a failed initialization never changes the count.
pub proof fn lemma_teardown_only_when_last(count: nat, init_succeeded: bool)
    requires
        count > 0,
    ensures
        spec_release(count).1 <==> spec_release(count).0 == 0,
        !spec_acquire(count, init_succeeded).1 ==> spec_acquire(count, init_succeeded).0 == count,
        spec_acquire(count, init_succeeded).1,
{
}

/// Creating an engine: with no engine live, the runtime's initialization is
/// attempted and its failure leaves the count at zero; with engines live, no
/// initialization is attempted, its outcome is ignored, and the count grows by
/// one.
pub proof fn lemma_engine_creation(count: nat, init_succeeded: bool)
    ensures
        count == 0 && !init_succeeded ==> spec_acquire(count, init_succeeded) == (0nat, false),
        count == 0 && init_succeeded ==> spec_acquire(count, init_succeeded) == (1nat, true),
        count > 0 ==> spec_acquire(count, init_succeeded) == (count + 1, true),
        count > 0 ==> spec_acquire(count, init_succeeded) == spec_acquire(count, !init_succeeded),
{
}

} // verus!
