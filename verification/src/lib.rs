//! Anonymous, double-vote-resistant polling built on linkable ring signatures.
//!
//! Registered parties cast ballots against an immutable ring of public keys;
//! a CLSAG-style linkable ring signature proves ring membership without
//! revealing the signer, and a per-poll nullifier set (the first key image of
//! each accepted ballot) rejects any attempt to vote twice.  The crate holds
//! the admission and tallying protocol itself: structural validation of
//! submitted envelopes, delegation to the external verification primitive,
//! nullifier bookkeeping, poll lifecycle, and plain, scored and encrypted
//! tally accumulators.

pub mod bytes;
pub mod codec;
pub mod envelope;
pub mod nullifier;
pub mod clsag;
pub mod simple_voting;
pub mod evaluative_voting;
pub mod proposal;
pub mod voting;
