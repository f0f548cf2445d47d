//! Cooperative shutdown signal.
//!
//! A [`QuitFlag`] is a shared, one-way boolean: it starts lowered and the
//! only mutation offered is [`QuitFlag::raise`], which stores `true`, so the
//! flag can never reset. Blocking operations observe it at well-defined
//! points; the step functions of the listener modules take the observed
//! value and pin down exactly what each observation implies. Because the
//! flag is shared between threads, nothing can be promised here about what
//! a particular `load` returns — another thread may raise the flag at any
//! moment — so the methods carry no value contracts.

use vstd::prelude::*;
use core::sync::atomic::AtomicBool;
use core::sync::atomic::Ordering;

verus! {

/// Process-scoped cooperative shutdown signal, shared by reference (the
/// embedding program typically holds it in an `Arc`).
pub struct QuitFlag {
    flag: AtomicBool,
}

impl QuitFlag {
    /// A fresh, lowered flag.
    pub fn new() -> QuitFlag {
        QuitFlag { flag: AtomicBool::new(false) }
    }

    /// Requests shutdown. The transition is one-way: no method of this type
    /// ever stores `false`.
    pub fn raise(&self) {
        self.flag.store(true, Ordering::SeqCst);
    }

    /// Observes the flag once.
    pub fn is_raised(&self) -> bool {
        self.flag.load(Ordering::SeqCst)
    }
}

} // verus!
