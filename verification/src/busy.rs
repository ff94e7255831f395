//! The flag that keeps a session to one heavy operation at a time.
//!
//! It is advisory: it answers whoever asks, and binds nobody who does not.

use vstd::prelude::*;

verus! {

/// Whether a download or a conversion is under way in this session.
#[derive(Debug, Clone, Copy, PartialEq, Eq, Structural)]
pub struct BusyFlag {
    pub busy: bool,
}

/// The answer to an operation that asks to begin.
#[derive(Debug, Clone, Copy, PartialEq, Eq, Structural)]
pub enum Admission {
    /// Nothing else is under way: begin.
    Started,
    /// Something else is under way: do not begin.
    Busy,
}

impl BusyFlag {
    /// A flag with nothing under way.
    pub fn new() -> (flag: BusyFlag)
        ensures
            !flag.busy,
    {
        BusyFlag { busy: false }
    }

    /// Asks to begin an operation. Where nothing is under way the operation
    /// is admitted and the flag is up from now on; where something is, the
    /// flag stays up and the answer is `Busy`.
    pub fn try_begin(&mut self) -> (admission: Admission)
        ensures
            admission == if old(self).busy {
                Admission::Busy
            } else {
                Admission::Started
            },
            final(self).busy,
    {
        if self.busy {
            Admission::Busy
        } else {
            self.busy = true;
            Admission::Started
        }
    }

    /// Takes the flag down: the admitted operation is over.
    pub fn finish(&mut self)
        ensures
            !final(self).busy,
    {
        self.busy = false;
    }
}

} // verus!
