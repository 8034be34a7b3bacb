//! Flow-control accounting for one direction of one stream, or for the
//! connection as a whole: a signed window that increments may raise to at
//! most 2^31 - 1 and that sending consumes.

use vstd::prelude::*;
use crate::error::ErrorCode;

verus! {

/// The largest legal flow-control window.
pub const MAX_WINDOW: i32 = 0x7FFF_FFFF;

/// The window every stream starts with before settings change it.
pub const DEFAULT_INITIAL_WINDOW_SIZE: u32 = 65_535;

/// What applying `inc` to a window holding `window` octets yields: the new
/// window, or the error a peer announcing that increment has committed.
/// A failed application leaves the window as it was.
pub open spec fn spec_apply_increment(window: int, inc: u32) -> Result<int, ErrorCode> {
    if inc == 0 {
        Err(ErrorCode::ProtocolError)
    } else if window + inc > MAX_WINDOW {
        Err(ErrorCode::FlowControlError)
    } else {
        Ok(window + inc)
    }
}

/// One direction's window.
#[derive(Debug, Copy, Clone, Eq, PartialEq, Structural)]
pub struct FlowControl {
    pub window: i32,
}

impl FlowControl {
    /// A window never exceeds the legal maximum, and never owes more than it.
    pub open spec fn wf(self) -> bool {
        -MAX_WINDOW <= self.window <= MAX_WINDOW
    }

    /// The number of octets that may be sent now.
    pub open spec fn spec_available(self) -> int {
        if self.window >= 0 {
            self.window as int
        } else {
            0
        }
    }

    pub fn new(initial: u32) -> (r: FlowControl)
        requires
            initial <= MAX_WINDOW,
        ensures
            r.window == initial,
            r.wf(),
    {
        FlowControl { window: initial as i32 }
    }

    /// The octets that may be sent now; zero while the window is negative.
    pub fn available(&self) -> (r: u32)
        ensures
            r == self.spec_available(),
    {
        if self.window >= 0 {
            self.window as u32
        } else {
            0
        }
    }

    /// Apply a WINDOW_UPDATE increment.  A zero increment and an increment
    /// that would push the window past 2^31 - 1 are errors; either error
    /// leaves the window exactly as it was — no silent wrap.
    pub fn apply_increment(&mut self, inc: u32) -> (r: Result<(), ErrorCode>)
        requires
            old(self).wf(),
        ensures
            final(self).wf(),
            (match spec_apply_increment(old(self).window as int, inc) {
                Ok(w) => r is Ok && final(self).window == w,
                Err(e) => r == Err::<(), ErrorCode>(e) && *final(self) == *old(self),
            }),
    {
        if inc == 0 {
            return Err(ErrorCode::ProtocolError);
        }
        let wide: i64 = self.window as i64 + inc as i64;
        if wide > MAX_WINDOW as i64 {
            return Err(ErrorCode::FlowControlError);
        }
        self.window = wide as i32;
        Ok(())
    }

    /// Consume `n` octets of available capacity before sending them.
    pub fn consume(&mut self, n: u32)
        requires
            old(self).wf(),
            n <= old(self).spec_available(),
        ensures
            final(self).wf(),
            final(self).window == old(self).window - n,
    {
        self.window = self.window - n as i32;
    }

    /// Change of SETTINGS_INITIAL_WINDOW_SIZE: shift the window by the
    /// difference.  A transiently negative window is legal; a window pushed
    /// past 2^31 - 1 (or below its negation) is a flow-control error and
    /// leaves the window unchanged.
    pub fn adjust_initial(&mut self, old_initial: u32, new_initial: u32) -> (r: Result<
        (),
        ErrorCode,
    >)
        requires
            old(self).wf(),
            old_initial <= MAX_WINDOW,
            new_initial <= MAX_WINDOW,
        ensures
            final(self).wf(),
            ({
                let shifted = old(self).window + new_initial - old_initial;
                if -MAX_WINDOW <= shifted <= MAX_WINDOW {
                    r is Ok && final(self).window == shifted
                } else {
                    r == Err::<(), ErrorCode>(ErrorCode::FlowControlError) && *final(self) == *old(
                        self,
                    )
                }
            }),
    {
        let wide: i64 = self.window as i64 + new_initial as i64 - old_initial as i64;
        if wide > MAX_WINDOW as i64 || wide < -(MAX_WINDOW as i64) {
            return Err(ErrorCode::FlowControlError);
        }
        self.window = wide as i32;
        Ok(())
    }
}

/// The window after a whole sequence of increments has been offered, each
/// failed one (zero, or overflowing) leaving the window unchanged.
pub open spec fn spec_run_increments(w0: int, incs: Seq<u32>) -> int
    decreases incs.len(),
{
    if incs.len() == 0 {
        w0
    } else {
        let w1 = match spec_apply_increment(w0, incs[0]) {
            Ok(w) => w,
            Err(_) => w0,
        };
        spec_run_increments(w1, incs.drop_first())
    }
}

/// For any sequence of applied increments, a window that starts within the
/// legal range never exceeds 2^31 - 1: an increment that would exceed it is
/// rejected and changes nothing.
pub proof fn lemma_window_never_exceeds(w0: int, incs: Seq<u32>)
    requires
        w0 <= MAX_WINDOW,
    ensures
        spec_run_increments(w0, incs) <= MAX_WINDOW,
    decreases incs.len(),
{
    if incs.len() > 0 {
        let w1 = match spec_apply_increment(w0, incs[0]) {
            Ok(w) => w,
            Err(_) => w0,
        };
        lemma_window_never_exceeds(w1, incs.drop_first());
    }
}

/// Every window along the way — after each prefix of the sequence — is
/// within the legal range, not only the last one.
pub proof fn lemma_window_never_exceeds_prefix(w0: int, incs: Seq<u32>, i: int)
    requires
        w0 <= MAX_WINDOW,
        0 <= i <= incs.len(),
    ensures
        spec_run_increments(w0, incs.take(i)) <= MAX_WINDOW,
{
    lemma_window_never_exceeds(w0, incs.take(i));
}

} // verus!
