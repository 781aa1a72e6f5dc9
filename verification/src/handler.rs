//! Cooperative shutdown signalling.
//!
//! A `Signal` wraps one shared boolean flag. The flag starts out `true`
//! ("running"); the process-wide interrupt handler installed by
//! [`set_handler`] performs a single relaxed store of `false` when the
//! interrupt arrives, and any number of clones of the `Signal` may poll
//! [`Signal::check`] to learn that they should stop. The flag is never set
//! back to `true`.

use vstd::prelude::*;
use std::sync::Arc;
use std::sync::atomic::AtomicBool;
use std::sync::atomic::Ordering;

verus! {

/// Why installing the interrupt handler failed.
#[derive(Clone, Copy, Debug, PartialEq, Eq, Structural)]
pub enum SignalError {
    /// A process-wide interrupt handler was already registered; the
    /// underlying facility permits only one registration per process.
    AlreadyInstalled,
    /// The interrupt signal does not exist on this system.
    NoSuchSignal,
    /// The operating system rejected the registration.
    System,
}

/// A cloneable handle on the shared "keep running" flag.
#[derive(Clone)]
pub struct Signal {
    running: Arc<AtomicBool>,
}

impl Signal {
    /// A fresh handle whose flag is `true`: no stop has been requested yet.
    pub fn fresh() -> Signal {
        Signal { running: Arc::new(AtomicBool::new(true)) }
    }

    /// Check if a signal has been caught and the application should exit.
    ///
    /// Performs a single relaxed load; it never blocks and is safe to call
    /// concurrently from any number of readers. The result is `true` once
    /// the interrupt callback has performed its store of `false` and is
    /// visible to this thread; the flag never goes back, so `true` is final.
    pub fn check(&self) -> bool {
        !self.running.load(Ordering::Relaxed)
    }

    /// What the installed interrupt callback performs: a single relaxed
    /// store of `false` into the shared flag. It never blocks and
    /// allocates nothing. The transition is one-way; only the installed
    /// callback is meant to call this, and tests use it to stand in for
    /// the interrupt.
    pub fn trip(&self) {
        self.running.store(false, Ordering::Relaxed);
    }
}

/// Relies on `ctrlc::set_handler`: registers a callback for the
/// interactive-interrupt signal that runs the caller-supplied `on_signal`
/// and then the library's own flag store, [`Signal::trip`], in that
/// order; a second registration in the same process is refused with
/// `ctrlc::Error::MultipleHandlers`, which this body maps, with the other
/// error variants, onto [`SignalError`].
#[verifier::external_body]
fn install_interrupt_handler<F: Fn() + Send + 'static>(
    signal: &Signal,
    on_signal: F,
) -> Result<(), SignalError> {
    let handle = signal.clone();
    match ctrlc::set_handler(move || {
        on_signal();
        handle.trip();
    }) {
        Ok(()) => Ok(()),
        Err(ctrlc::Error::MultipleHandlers) => Err(SignalError::AlreadyInstalled),
        Err(ctrlc::Error::NoSuchSignal(_)) => Err(SignalError::NoSuchSignal),
        Err(ctrlc::Error::System(_)) => Err(SignalError::System),
    }
}

/// Install the process-wide interrupt handler and hand back the flag that
/// the handler will flip.
///
/// When the interrupt fires, the installed callback first runs
/// `on_signal` — the caller passes the emission of the warning record,
/// scoped under its named sub-logger, which the verified library cannot
/// build itself — and then performs the single relaxed store of
/// [`Signal::trip`], so every clone of the returned handle observes
/// [`Signal::check`]` == true` from then on. The callback runs on an
/// ordinary thread of the interrupt machinery, not in a restricted
/// signal-handler context. The returned `Signal` starts out not stopped.
/// Installing a handler twice in one process fails with
/// [`SignalError::AlreadyInstalled`] on the second attempt.
pub fn set_handler<F: Fn() + Send + 'static>(on_signal: F) -> Result<Signal, SignalError> {
    let signal = Signal::fresh();
    match install_interrupt_handler(&signal, on_signal) {
        Ok(()) => Ok(signal),
        Err(e) => Err(e),
    }
}

} // verus!
