//! The scored (multi-question) tally strategy: a ballot carries one score
//! per question, and the accumulator keeps five per-score counters for each
//! question.  The accumulator is sized lazily to the first ballot's
//! dimension; every later ballot must match it.

use crate::simple_voting::sat_inc;
use crate::voting::Error;
use vstd::prelude::*;

verus! {

/// The most questions a scored ballot may carry.
pub const MAX_QUESTIONS: usize = 10;

/// A score for one question.
#[derive(Clone, Copy, Debug, PartialEq, Eq, Structural)]
pub enum Score {
    One,
    Two,
    Three,
    Four,
    Five,
}

/// A scored ballot: one score per question.
pub type Vote = Vec<Score>;

/// The per-question counters of the five score levels.
#[derive(Clone, Copy, Debug, PartialEq, Eq, Structural)]
pub struct QuestionStats {
    pub score_1: u32,
    pub score_2: u32,
    pub score_3: u32,
    pub score_4: u32,
    pub score_5: u32,
}

/// The scored accumulator: one `QuestionStats` per question.
pub type Tally = Vec<QuestionStats>;

impl QuestionStats {
    /// All five counters at zero.
    pub open spec fn spec_zero() -> QuestionStats {
        QuestionStats { score_1: 0, score_2: 0, score_3: 0, score_4: 0, score_5: 0 }
    }
}

impl Default for QuestionStats {
    /// All five counters at zero.
    fn default() -> (r: QuestionStats)
        ensures
            r == QuestionStats::spec_zero(),
    {
        QuestionStats { score_1: 0, score_2: 0, score_3: 0, score_4: 0, score_5: 0 }
    }
}

/// One question's counters after counting one score: the chosen level goes
/// up by one (saturating); the others are untouched.
pub open spec fn spec_bump(s: QuestionStats, score: Score) -> QuestionStats {
    match score {
        Score::One => QuestionStats { score_1: sat_inc(s.score_1), ..s },
        Score::Two => QuestionStats { score_2: sat_inc(s.score_2), ..s },
        Score::Three => QuestionStats { score_3: sat_inc(s.score_3), ..s },
        Score::Four => QuestionStats { score_4: sat_inc(s.score_4), ..s },
        Score::Five => QuestionStats { score_5: sat_inc(s.score_5), ..s },
    }
}

/// A whole accumulator after counting one ballot of matching dimension.
pub open spec fn spec_tally_after(base: Seq<QuestionStats>, vote: Seq<Score>) -> Seq<QuestionStats> {
    Seq::new(base.len(), |i: int| spec_bump(base[i], vote[i]))
}

/// A zero accumulator shaped to `n` questions.
pub open spec fn spec_zero_tally(n: nat) -> Seq<QuestionStats> {
    Seq::new(n, |i: int| QuestionStats::spec_zero())
}

/// The scored tally strategy.
pub struct TallyHandler;

impl TallyHandler {
    /// Counts one scored ballot into the accumulator.
    ///
    /// An empty accumulator (no ballot counted yet) is first shaped to the
    /// ballot's dimension, all counters zero; a ballot of more than
    /// `MAX_QUESTIONS` questions is rejected before that.  A ballot whose
    /// dimension differs from a non-empty accumulator is rejected.  Either
    /// rejection leaves the accumulator untouched.
    pub fn update_tally(vote: &Vec<Score>, tally: &mut Vec<QuestionStats>) -> (r: Result<
        (),
        Error,
    >)
        ensures
            old(tally)@.len() == 0 && vote@.len() > MAX_QUESTIONS ==> r == Err::<(), Error>(
                Error::BadMetadata,
            ) && final(tally)@ == old(tally)@,
            old(tally)@.len() == 0 && vote@.len() <= MAX_QUESTIONS ==> r == Ok::<(), Error>(())
                && final(tally)@ == spec_tally_after(spec_zero_tally(vote@.len()), vote@),
            old(tally)@.len() != 0 && vote@.len() != old(tally)@.len() ==> r == Err::<(), Error>(
                Error::DimensionMismatch,
            ) && final(tally)@ == old(tally)@,
            old(tally)@.len() != 0 && vote@.len() == old(tally)@.len() ==> r == Ok::<(), Error>(())
                && final(tally)@ == spec_tally_after(old(tally)@, vote@),
    {
        let n = vote.len();
        if tally.len() == 0 {
            if n > MAX_QUESTIONS {
                return Err(Error::BadMetadata);
            }
            let mut j: usize = 0;
            while j < n
                invariant
                    0 <= j <= n,
                    tally@ =~= spec_zero_tally(j as nat),
                decreases n - j,
            {
                tally.push(QuestionStats::default());
                proof {
                    assert(tally@ =~= spec_zero_tally((j + 1) as nat));
                }
                j = j + 1;
            }
        }
        if n != tally.len() {
            return Err(Error::DimensionMismatch);
        }
        let ghost base: Seq<QuestionStats> = tally@;
        let mut i: usize = 0;
        while i < n
            invariant
                0 <= i <= n,
                n == vote@.len(),
                n == base.len(),
                tally@.len() == n,
                forall|k: int| 0 <= k < i ==> tally@[k] == spec_bump(base[k], vote@[k]),
                forall|k: int| i <= k < n ==> tally@[k] == base[k],
            decreases n - i,
        {
            let s: QuestionStats = tally[i];
            let updated = match vote[i] {
                Score::One => QuestionStats {
                    score_1: if s.score_1 < u32::MAX {
                        s.score_1 + 1
                    } else {
                        s.score_1
                    },
                    ..s
                },
                Score::Two => QuestionStats {
                    score_2: if s.score_2 < u32::MAX {
                        s.score_2 + 1
                    } else {
                        s.score_2
                    },
                    ..s
                },
                Score::Three => QuestionStats {
                    score_3: if s.score_3 < u32::MAX {
                        s.score_3 + 1
                    } else {
                        s.score_3
                    },
                    ..s
                },
                Score::Four => QuestionStats {
                    score_4: if s.score_4 < u32::MAX {
                        s.score_4 + 1
                    } else {
                        s.score_4
                    },
                    ..s
                },
                Score::Five => QuestionStats {
                    score_5: if s.score_5 < u32::MAX {
                        s.score_5 + 1
                    } else {
                        s.score_5
                    },
                    ..s
                },
            };
            tally[i] = updated;
            i = i + 1;
        }
        proof {
            assert(tally@ =~= spec_tally_after(base, vote@));
        }
        Ok(())
    }
}

} // verus!
