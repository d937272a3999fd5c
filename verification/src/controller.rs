//! Run flag shared between the threads of the daemon.
use vstd::prelude::*;
use std::sync::atomic::{AtomicBool, Ordering};

verus! {

/// Controls whether the main loop keeps running; any thread may flip it.
pub struct CoreController {
    pub keep_running: AtomicBool,
}

impl CoreController {
    /// A controller whose flag starts as `val`.
    pub fn new(val: bool) -> Self {
        Self { keep_running: AtomicBool::new(val) }
    }

    /// The current value of the flag (any thread may have changed it since).
    pub fn keep_running(&self) -> bool {
        self.keep_running.load(Ordering::Relaxed)
    }

    /// Let the main loop run (`keep_running = true`).
    pub fn start(&self) {
        self.keep_running.store(true, Ordering::SeqCst);
    }

    /// Stop the main loop (`keep_running = false`).
    pub fn shutdown(&self) {
        self.keep_running.store(false, Ordering::SeqCst);
    }
}

/// A handler of events of type `Event` that steers the controller.
pub trait EventHandler<Event> {
    fn handle(event: Event, controller: &CoreController);
}

} // verus!
