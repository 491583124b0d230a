use std::sync::atomic::AtomicBool;
use std::sync::atomic::Ordering;
use vstd::prelude::*;

verus! {

/// Process-wide dirty flag: set by the hosted application (or at start-up)
/// when a redraw is wanted, read and cleared by the dispatch path.
///
/// Other execution contexts may set the flag at any moment, so nothing is
/// promised about the value a read observes.
pub struct NeedRepaint(AtomicBool);

impl NeedRepaint {
    /// A flag that starts raised, so that the first event paints a frame.
    pub fn new() -> (r: NeedRepaint) {
        NeedRepaint(AtomicBool::new(true))
    }

    /// Reads the flag and lowers it in one atomic step.
    pub fn fetch_and_clear(&self) -> (r: bool) {
        self.0.swap(false, Ordering::SeqCst)
    }

    /// Raises the flag.
    pub fn set_true(&self) {
        self.0.store(true, Ordering::SeqCst);
    }

    /// Raises the flag on behalf of the hosted application.
    pub fn request_repaint(&self) {
        self.set_true();
    }
}

impl Default for NeedRepaint {
    fn default() -> (r: NeedRepaint) {
        NeedRepaint::new()
    }
}

} // verus!
