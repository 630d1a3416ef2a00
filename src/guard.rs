//! A single-flight guard: duplicate triggers of one operation collapse into
//! the one already in flight.
use vstd::prelude::*;

verus! {

#[derive(Debug)]
pub struct BinariesState {
    pub in_flight: bool,
}

impl BinariesState {
    pub fn new() -> (r: Self)
        ensures
            !r.in_flight,
    {
        BinariesState { in_flight: false }
    }

    /// Claims the guard: true when no operation was in flight, and the
    /// caller then owns the work. The guard is held afterwards either way.
    pub fn try_start(&mut self) -> (r: bool)
        ensures
            r == !old(self).in_flight,
            final(self).in_flight,
    {
        if self.in_flight {
            false
        } else {
            self.in_flight = true;
            true
        }
    }

    /// Releases the guard once the owner's work is over.
    pub fn finish(&mut self)
        ensures
            !final(self).in_flight,
    {
        self.in_flight = false;
    }
}

/// Result of a triggered "ensure" operation whose work is `work`, given
/// whether this trigger owned the guard: a duplicate trigger reports
/// success without doing anything.
pub open spec fn ensure_result(owned: bool, work: Result<(), String>) -> Result<(), String> {
    if owned {
        work
    } else {
        Ok(())
    }
}

/// Closes a triggered operation: the owner releases the guard and reports
/// its work's result; a duplicate trigger leaves the guard to its owner.
pub fn mitmproxy_script_ensure(
    state: &mut BinariesState,
    owned: bool,
    work: Result<(), String>,
) -> (r: Result<(), String>)
    ensures
        r == ensure_result(owned, work),
        final(state).in_flight == (old(state).in_flight && !owned),
{
    if owned {
        state.finish();
        work
    } else {
        Ok(())
    }
}

} // verus!
