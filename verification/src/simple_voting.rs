//! The plain yea-or-nay tally strategy: each ballot increments exactly one
//! of the two counters.

use crate::voting::Error;
use vstd::prelude::*;

verus! {

/// A plain ballot choice for the simple tally strategy.
#[derive(Clone, Copy, Debug, PartialEq, Eq, Structural)]
pub enum Vote {
    Yea,
    Nay,
}

/// The plain accumulator: `(yea, nay)` counts, starting at `(0, 0)`.
pub type Tally = (u32, u32);

/// `x + 1`, held at the counter's width.
pub open spec fn sat_inc(x: u32) -> u32 {
    if x < u32::MAX {
        (x + 1) as u32
    } else {
        x
    }
}

/// What one plain ballot does to a tally: the chosen counter goes up by one
/// (saturating at the counter's width); the other counter is untouched.
pub open spec fn spec_update_tally(vote: Vote, t: (u32, u32)) -> (u32, u32) {
    match vote {
        Vote::Yea => (sat_inc(t.0), t.1),
        Vote::Nay => (t.0, sat_inc(t.1)),
    }
}

/// The plain tally strategy.
pub struct TallyHandler;

impl TallyHandler {
    /// Counts one ballot into the accumulator.  Never fails.
    pub fn update_tally(vote: &Vote, tally: &mut (u32, u32)) -> (r: Result<(), Error>)
        ensures
            r == Ok::<(), Error>(()),
            *final(tally) == spec_update_tally(*vote, *old(tally)),
    {
        match vote {
            Vote::Yea => {
                tally.0 = if tally.0 < u32::MAX {
                    tally.0 + 1
                } else {
                    tally.0
                };
            },
            Vote::Nay => {
                tally.1 = if tally.1 < u32::MAX {
                    tally.1 + 1
                } else {
                    tally.1
                };
            },
        }
        Ok(())
    }
}

} // verus!
