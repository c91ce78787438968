use std::sync::atomic::{AtomicBool, Ordering};
use vstd::prelude::*;

verus! {

/// The run-wide interruption flag: set when the user asks to interrupt,
/// read and cleared by the runner after a failed attempt.
///
/// It is shared with a signal handler, which may set it at any moment, so
/// nothing is known of its value between two calls.
pub struct Interruption {
    flag: AtomicBool,
}

impl Interruption {
    /// A flag that is not set.
    pub fn new() -> (r: Self) {
        Interruption { flag: AtomicBool::new(false) }
    }

    /// Records that the user asked to interrupt.
    pub fn set(&self) {
        self.flag.store(true, Ordering::SeqCst);
    }

    pub fn interrupted(&self) -> (r: bool) {
        self.flag.load(Ordering::SeqCst)
    }

    pub fn unset_interrupted(&self) {
        self.flag.store(false, Ordering::SeqCst);
    }

    /// Reads the flag and clears it when it was set, so that one
    /// interruption is seen by one failed attempt only.
    pub fn take(&self) -> (r: bool) {
        let interrupted = self.interrupted();
        if interrupted {
            self.unset_interrupted();
        }
        interrupted
    }
}

} // verus!
