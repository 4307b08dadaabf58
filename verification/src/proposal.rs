//! The proposal-based voting pallet: each proposal is voted on with a ring
//! submitted alongside the ballot, whose dimensions are fixed by
//! configuration rather than by a registered group.  The shape of the
//! envelope is validated before any cryptographic work, each accepted ballot
//! records its linkable key image as the proposal's nullifier, and the plain
//! `(yea, nay)` tally counts the ballots.

use crate::bytes::{push_u32_le, spec_u32_le};
use crate::clsag::{clsag_accepts, verify_envelope};
use crate::envelope::{
    check_ring_rows_uniform, envelope_decodable, envelope_shape_ok, points_view, ring_bytes_view,
    scalars_view, CompressedRistrettoWrapper, ScalarWrapper,
};
use crate::nullifier::{contains_image, image_in};
use crate::simple_voting::sat_inc;
use vstd::prelude::*;

verus! {

/// A proposal identifier, assigned monotonically from zero.
pub type ProposalId = u32;

/// An account, an opaque numeric identity resolved by the caller's
/// authorization layer.
pub type AccountId = u64;

/// Everything that can go wrong during proposal lifecycle and ballot
/// admission.  Every failure leaves all state exactly as it was.
#[derive(Clone, Copy, Debug, PartialEq, Eq, Structural)]
pub enum Error {
    /// The signature failed cryptographic verification.
    InvalidSignature,
    /// A shape, dimension or encoding violation, detected before any
    /// cryptographic work.
    BadMetadata,
    /// The linkable key image was already recorded for this proposal.
    AlreadyVoted,
    /// No proposal with the given identifier.
    ProposalNotFound,
    /// The proposal does not accept ballots.
    ProposalClosed,
    /// The proposal was closed before this call.
    ProposalAlreadyClosed,
    /// Only the proposal's creator may close it.
    NotProposalCreator,
}

/// A plain ballot choice.
#[derive(Clone, Copy, Debug, PartialEq, Eq, Structural)]
pub enum VoteOption {
    Yea,
    Nay,
}

/// A proposal's lifecycle state; `Closed` is terminal.
#[derive(Clone, Copy, Debug, PartialEq, Eq, Structural)]
pub enum ProposalStatus {
    Voting,
    Closed,
}

/// A proposal record.  Created once; mutated only by the status transition;
/// never deleted.
pub struct Proposal {
    /// Who created the proposal, and alone may close it.
    pub creator: AccountId,
    /// Free-form description, bounded in length.
    pub description: Vec<u8>,
    /// Lifecycle state.
    pub status: ProposalStatus,
}

/// The storage encoding of a plain ballot choice: one byte.
pub open spec fn spec_vote_byte(vote: VoteOption) -> u8 {
    match vote {
        VoteOption::Yea => 0,
        VoteOption::Nay => 1,
    }
}

/// What one ballot does to a `(yea, nay)` tally: the chosen counter goes up
/// by one, saturating at the counter's width; the other is untouched.
pub open spec fn spec_count_vote(vote: VoteOption, t: (u32, u32)) -> (u32, u32) {
    match vote {
        VoteOption::Yea => (sat_inc(t.0), t.1),
        VoteOption::Nay => (t.0, sat_inc(t.1)),
    }
}

/// The canonical message a ballot signs: the proposal identifier in its
/// fixed-width little-endian form, then the ballot byte.  Nothing else is
/// covered by the signature.
pub open spec fn spec_vote_message(proposal_id: ProposalId, vote: VoteOption) -> Seq<u8> {
    spec_u32_le(proposal_id) + seq![spec_vote_byte(vote)]
}

/// Builds the canonical ballot message.
pub fn vote_message(proposal_id: ProposalId, vote: &VoteOption) -> (r: Vec<u8>)
    ensures
        r@ == spec_vote_message(proposal_id, *vote),
{
    let mut msg: Vec<u8> = Vec::new();
    push_u32_le(&mut msg, proposal_id);
    let b: u8 = match vote {
        VoteOption::Yea => 0,
        VoteOption::Nay => 1,
    };
    msg.push(b);
    proof {
        assert(msg@ =~= spec_vote_message(proposal_id, *vote));
    }
    msg
}

/// The proposal system's whole state: proposal records and the per-proposal
/// vote bookkeeping, each table indexed by the dense identifier space.
/// Identifiers are assigned monotonically and entries are never deleted, so
/// an identifier is exactly an index.
pub struct Pallet {
    /// The fixed ring height every submitted ring must have.
    pub num_ring_members: usize,
    /// The fixed number of keys per ring row (the layer count).
    pub num_ring_layers: usize,
    /// The longest accepted proposal description.
    pub max_description_length: usize,
    /// Proposal records, by `ProposalId`.
    pub proposals: Vec<Proposal>,
    /// Plain tallies, one per proposal.
    pub tallies: Vec<(u32, u32)>,
    /// Used linkable key images, one set per proposal; never removed.
    pub nullifiers: Vec<Vec<CompressedRistrettoWrapper>>,
}

impl Pallet {
    /// The configuration bounds, unchanged by every operation.
    pub open spec fn same_config(self, other: Pallet) -> bool {
        &&& self.num_ring_members == other.num_ring_members
        &&& self.num_ring_layers == other.num_ring_layers
        &&& self.max_description_length == other.max_description_length
    }

    /// Well-formedness of the whole state: the per-proposal tables are
    /// aligned, the configured dimensions are usable, and every record is
    /// within bounds.
    pub open spec fn wf(self) -> bool {
        &&& self.num_ring_members >= 1
        &&& self.num_ring_layers >= 1
        &&& self.proposals@.len() <= u32::MAX
        &&& self.tallies@.len() == self.proposals@.len()
        &&& self.nullifiers@.len() == self.proposals@.len()
        &&& forall|p: int|
            0 <= p < self.proposals@.len() ==> (#[trigger] self.proposals@[p]).description@.len()
                <= self.max_description_length
    }

    /// A proposal with this identifier exists.
    pub open spec fn has_proposal(self, proposal_id: ProposalId) -> bool {
        (proposal_id as int) < self.proposals@.len()
    }

    /// The proposal exists and is accepting ballots.
    pub open spec fn proposal_open(self, proposal_id: ProposalId) -> bool {
        self.has_proposal(proposal_id) && self.proposals@[proposal_id as int].status
            == ProposalStatus::Voting
    }

    /// The key image bytes are already recorded for this proposal.
    pub open spec fn key_image_used(self, proposal_id: ProposalId, b: Seq<u8>) -> bool
        recommends
            self.has_proposal(proposal_id),
    {
        image_in(self.nullifiers@[proposal_id as int]@, b)
    }

    /// An empty system with the given configuration.
    pub fn new(num_ring_members: usize, num_ring_layers: usize, max_description_length: usize) -> (r:
        Pallet)
        requires
            num_ring_members >= 1,
            num_ring_layers >= 1,
        ensures
            r.wf(),
            r.num_ring_members == num_ring_members,
            r.num_ring_layers == num_ring_layers,
            r.max_description_length == max_description_length,
            r.proposals@.len() == 0,
    {
        Pallet {
            num_ring_members,
            num_ring_layers,
            max_description_length,
            proposals: Vec::new(),
            tallies: Vec::new(),
            nullifiers: Vec::new(),
        }
    }

    /// Creates a proposal with status `Voting` and a zero tally, and
    /// assigns it the next `ProposalId`.  An over-long description is
    /// rejected as `BadMetadata` and nothing is stored.
    pub fn create_proposal(&mut self, creator: AccountId, description: Vec<u8>) -> (r: Result<
        ProposalId,
        Error,
    >)
        requires
            old(self).wf(),
            old(self).proposals@.len() < u32::MAX,
        ensures
            final(self).wf(),
            old(self).same_config(*final(self)),
            r matches Err(_) ==> *final(self) == *old(self),
            description@.len() > old(self).max_description_length ==> r == Err::<
                ProposalId,
                Error,
            >(Error::BadMetadata),
            description@.len() <= old(self).max_description_length ==> {
                &&& r == Ok::<ProposalId, Error>(old(self).proposals@.len() as u32)
                &&& final(self).proposals@ == old(self).proposals@.push(
                    (Proposal { creator, description, status: ProposalStatus::Voting }),
                )
                &&& final(self).tallies@ == old(self).tallies@.push((0u32, 0u32))
                &&& final(self).nullifiers@.len() == old(self).nullifiers@.len() + 1
                &&& final(self).nullifiers@[old(self).proposals@.len() as int]@ == Seq::<
                    CompressedRistrettoWrapper,
                >::empty()
                &&& final(self).nullifiers@.subrange(0, old(self).proposals@.len() as int) == old(
                    self,
                ).nullifiers@
            },
    {
        if description.len() > self.max_description_length {
            return Err(Error::BadMetadata);
        }
        let proposal_id = self.proposals.len() as u32;
        self.proposals.push(Proposal { creator, description, status: ProposalStatus::Voting });
        self.tallies.push((0, 0));
        self.nullifiers.push(Vec::new());
        Ok(proposal_id)
    }

    /// Flips an open proposal to the terminal `Closed` state.  Only the
    /// creator may close it; the tally and the recorded key images are
    /// retained.
    pub fn close_proposal(&mut self, who: AccountId, proposal_id: ProposalId) -> (r: Result<
        (),
        Error,
    >)
        requires
            old(self).wf(),
        ensures
            final(self).wf(),
            old(self).same_config(*final(self)),
            r matches Err(_) ==> *final(self) == *old(self),
            !old(self).has_proposal(proposal_id) ==> r == Err::<(), Error>(Error::ProposalNotFound),
            old(self).has_proposal(proposal_id) && old(self).proposals@[proposal_id as int].creator
                != who ==> r == Err::<(), Error>(Error::NotProposalCreator),
            old(self).has_proposal(proposal_id) && old(self).proposals@[proposal_id as int].creator
                == who && !old(self).proposal_open(proposal_id) ==> r == Err::<(), Error>(
                Error::ProposalAlreadyClosed,
            ),
            old(self).proposal_open(proposal_id) && old(self).proposals@[proposal_id as int].creator
                == who ==> {
                &&& r == Ok::<(), Error>(())
                &&& final(self).proposals@ == old(self).proposals@.update(
                    proposal_id as int,
                    (Proposal {
                        status: ProposalStatus::Closed,
                        ..old(self).proposals@[proposal_id as int]
                    }),
                )
                &&& final(self).tallies@ == old(self).tallies@
                &&& final(self).nullifiers@ == old(self).nullifiers@
            },
    {
        if proposal_id >= self.proposals.len() as u32 {
            return Err(Error::ProposalNotFound);
        }
        let idx = proposal_id as usize;
        if self.proposals[idx].creator != who {
            return Err(Error::NotProposalCreator);
        }
        if matches!(self.proposals[idx].status, ProposalStatus::Closed) {
            return Err(Error::ProposalAlreadyClosed);
        }
        let p = &mut self.proposals[idx];
        p.status = ProposalStatus::Closed;
        Ok(())
    }

    /// The shape demanded of a ballot: one response per configured ring
    /// row, a ring of the configured height with uniform rows, and one key
    /// image per layer.
    pub open spec fn vote_shape_ok(
        self,
        responses: Seq<ScalarWrapper>,
        ring: Seq<Vec<CompressedRistrettoWrapper>>,
        key_images: Seq<CompressedRistrettoWrapper>,
    ) -> bool {
        envelope_shape_ok(
            self.num_ring_members as int,
            self.num_ring_layers as int,
            responses,
            ring,
            key_images,
        )
    }

    /// The decision on a ballot: the first gate it fails, in the mandated
    /// order (shape, lifecycle, decodability, signature, nullifier), or
    /// acceptance.  The ring is taken from the ballot itself and verified
    /// at the configured dimensions.
    pub open spec fn vote_outcome(
        self,
        proposal_id: ProposalId,
        vote: VoteOption,
        challenge: ScalarWrapper,
        responses: Seq<ScalarWrapper>,
        ring: Seq<Vec<CompressedRistrettoWrapper>>,
        key_images: Seq<CompressedRistrettoWrapper>,
    ) -> Result<(), Error> {
        if !self.vote_shape_ok(responses, ring, key_images) {
            Err(Error::BadMetadata)
        } else if !self.has_proposal(proposal_id) {
            Err(Error::ProposalNotFound)
        } else if !self.proposal_open(proposal_id) {
            Err(Error::ProposalClosed)
        } else if !envelope_decodable(challenge, responses, ring, key_images) {
            Err(Error::BadMetadata)
        } else if !clsag_accepts(
            challenge@,
            scalars_view(responses),
            ring_bytes_view(ring),
            points_view(key_images),
            spec_vote_message(proposal_id, vote),
        ) {
            Err(Error::InvalidSignature)
        } else if self.key_image_used(proposal_id, key_images[0]@) {
            Err(Error::AlreadyVoted)
        } else {
            Ok(())
        }
    }

    /// Admits or rejects an anonymous ballot for a proposal.
    ///
    /// The envelope must have the configured dimensions — checked before
    /// anything else, so a malformed ballot never reaches the
    /// cryptography; the proposal must exist and be open; every byte
    /// string must decode; the verification primitive must accept the
    /// envelope over the canonical message; and the first key image must
    /// be fresh for this proposal.  Acceptance records that key image and
    /// increments exactly one tally counter; any rejection leaves all
    /// state exactly as it was.
    pub fn anonymous_vote(
        &mut self,
        proposal_id: ProposalId,
        vote: VoteOption,
        challenge: ScalarWrapper,
        responses: Vec<ScalarWrapper>,
        ring: Vec<Vec<CompressedRistrettoWrapper>>,
        key_images: Vec<CompressedRistrettoWrapper>,
    ) -> (r: Result<(), Error>)
        requires
            old(self).wf(),
        ensures
            final(self).wf(),
            old(self).same_config(*final(self)),
            r == old(self).vote_outcome(
                proposal_id,
                vote,
                challenge,
                responses@,
                ring@,
                key_images@,
            ),
            r matches Err(_) ==> *final(self) == *old(self),
            r == Ok::<(), Error>(()) ==> {
                &&& final(self).proposals@ == old(self).proposals@
                &&& final(self).tallies@ == old(self).tallies@.update(
                    proposal_id as int,
                    spec_count_vote(vote, old(self).tallies@[proposal_id as int]),
                )
                &&& final(self).nullifiers@.len() == old(self).nullifiers@.len()
                &&& final(self).nullifiers@[proposal_id as int]@ == old(
                    self,
                ).nullifiers@[proposal_id as int]@.push(key_images@[0])
                &&& forall|p: int|
                    0 <= p < old(self).nullifiers@.len() && p != proposal_id as int
                        ==> final(self).nullifiers@[p] == old(self).nullifiers@[p]
            },
    {
        if responses.len() != self.num_ring_members {
            return Err(Error::BadMetadata);
        }
        if ring.len() != self.num_ring_members {
            return Err(Error::BadMetadata);
        }
        if !check_ring_rows_uniform(&ring, self.num_ring_layers) {
            return Err(Error::BadMetadata);
        }
        if key_images.len() != self.num_ring_layers {
            return Err(Error::BadMetadata);
        }
        if proposal_id >= self.proposals.len() as u32 {
            return Err(Error::ProposalNotFound);
        }
        let idx = proposal_id as usize;
        if matches!(self.proposals[idx].status, ProposalStatus::Closed) {
            return Err(Error::ProposalClosed);
        }
        let message = vote_message(proposal_id, &vote);
        match verify_envelope(&challenge, &responses, &ring, &key_images, &message) {
            None => Err(Error::BadMetadata),
            Some(false) => Err(Error::InvalidSignature),
            Some(true) => {
                let ki0 = key_images[0];
                if contains_image(&self.nullifiers[idx], &ki0) {
                    return Err(Error::AlreadyVoted);
                }
                let row = &mut self.nullifiers[idx];
                row.push(ki0);
                let t = self.tallies[idx];
                let counted = match vote {
                    VoteOption::Yea => (
                        if t.0 < u32::MAX {
                            t.0 + 1
                        } else {
                            t.0
                        },
                        t.1,
                    ),
                    VoteOption::Nay => (
                        t.0,
                        if t.1 < u32::MAX {
                            t.1 + 1
                        } else {
                            t.1
                        },
                    ),
                };
                self.tallies[idx] = counted;
                Ok(())
            },
        }
    }

    /// The number of proposals created so far; also the next `ProposalId`.
    pub fn proposal_count(&self) -> (r: u32)
        requires
            self.wf(),
        ensures
            r == self.proposals@.len(),
    {
        self.proposals.len() as u32
    }

    /// The proposal record, if the identifier is known.
    pub fn proposals(&self, proposal_id: ProposalId) -> (r: Option<&Proposal>)
        ensures
            match r {
                Some(p) => self.has_proposal(proposal_id) && *p == self.proposals@[proposal_id as int],
                None => !self.has_proposal(proposal_id),
            },
    {
        if (proposal_id as usize) < self.proposals.len() {
            Some(&self.proposals[proposal_id as usize])
        } else {
            None
        }
    }

    /// The tally of a proposal; an unknown proposal tallies `(0, 0)`.
    pub fn proposal_votes(&self, proposal_id: ProposalId) -> (r: (u32, u32))
        requires
            self.wf(),
        ensures
            r == (if self.has_proposal(proposal_id) {
                self.tallies@[proposal_id as int]
            } else {
                (0u32, 0u32)
            }),
    {
        if (proposal_id as usize) < self.tallies.len() {
            self.tallies[proposal_id as usize]
        } else {
            (0, 0)
        }
    }

    /// Whether the key image is recorded for the proposal; an unknown
    /// proposal has no recorded images.
    pub fn used_key_images(
        &self,
        proposal_id: ProposalId,
        key_image: &CompressedRistrettoWrapper,
    ) -> (r: bool)
        requires
            self.wf(),
        ensures
            r == (self.has_proposal(proposal_id) && self.key_image_used(proposal_id, key_image@)),
    {
        if (proposal_id as usize) < self.nullifiers.len() {
            contains_image(&self.nullifiers[proposal_id as usize], key_image)
        } else {
            false
        }
    }
}

} // verus!
