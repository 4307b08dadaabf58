//! The poll-based voting pallet: reusable registered rings of public keys,
//! polls bound to a ring, anonymous ballot admission (plain or encrypted),
//! per-poll nullifier bookkeeping, and the poll lifecycle from `Voting` to
//! the terminal `Closed`.

use crate::bytes::{push_bytes, push_bytes16, push_bytes32, push_u64_le, spec_u64_le};
use crate::clsag::{clsag_accepts, verify_envelope};
use crate::envelope::{
    check_ring_rows_uniform, envelope_decodable, envelope_shape_ok, points_view, ring_bytes_view,
    ring_rows_uniform, scalars_view, CompressedRistrettoWrapper, ScalarWrapper,
};
use crate::nullifier::{contains_image, image_in};
use crate::simple_voting::sat_inc;
use vstd::prelude::*;

verus! {

/// A poll identifier, assigned monotonically from zero.
pub type PollId = u64;

/// A ring group identifier, assigned monotonically from zero.
pub type RingId = u64;

/// An account, an opaque numeric identity resolved by the caller's
/// authorization layer.
pub type AccountId = u64;

/// A currency amount as used for deposits.
pub type Balance = u64;

/// Everything that can go wrong during ring registration, poll lifecycle and
/// ballot admission.  Every failure leaves all state exactly as it was.
#[derive(Clone, Copy, Debug, PartialEq, Eq, Structural)]
pub enum Error {
    /// The signature failed cryptographic verification.
    InvalidSignature,
    /// A shape, dimension or encoding violation, detected before any
    /// cryptographic work.
    BadMetadata,
    /// The linkable key image was already recorded for this poll.
    AlreadyVoted,
    /// No poll with the given identifier.
    PollNotFound,
    /// The poll was closed before this call.
    PollAlreadyClosed,
    /// The poll does not accept ballots.
    PollNotOpen,
    /// The given metadata hash is not resolvable in the metadata store.
    PreimageNotExist,
    /// No ring group with the given identifier.
    RingGroupNotFound,
    /// The creator's deposit could not be reserved.
    DepositFailed,
    /// The poll's encrypted ballot store is full.
    TooManyVotes,
    /// A scored ballot's dimension differs from the poll's accumulator.
    DimensionMismatch,
}

/// A plain ballot choice.
#[derive(Clone, Copy, Debug, PartialEq, Eq, Structural)]
pub enum VoteOption {
    Yea,
    Nay,
}

/// A poll's lifecycle state; `Closed` is terminal.
#[derive(Clone, Copy, Debug, PartialEq, Eq, Structural)]
pub enum PollStatus {
    Voting,
    Closed,
}

/// The deposit reserved from a poll's creator, released at closure.
#[derive(Clone, Copy, Debug, PartialEq, Eq, Structural)]
pub struct Deposit {
    pub who: AccountId,
    pub amount: Balance,
}

/// A poll record.  Created once; mutated only by the status transition and
/// the key disclosure at closure; never deleted.
pub struct Poll {
    /// Who created the poll.
    pub creator: AccountId,
    /// Free-form description, bounded in length.
    pub description: Vec<u8>,
    /// Lifecycle state.
    pub status: PollStatus,
    /// The deposit reserved from the creator.
    pub submission_deposit: Deposit,
    /// The registered ring this poll is bound to, fixed at creation.
    pub ring_id: RingId,
    /// Optional content hash of off-system metadata.
    pub metadata_ref: Option<[u8; 32]>,
    /// Public key ballots are encrypted to, for the encrypted-tally variant.
    pub encryption_public_key: Option<[u8; 32]>,
    /// The decryption key disclosed at closure, for public auditability.
    pub encryption_private_key: Option<[u8; 32]>,
}

/// One encrypted ballot, stored verbatim and never decrypted on-system.
pub struct EncryptedVoteRecord {
    /// The voter's ephemeral public key.
    pub ephemeral_public_key: CompressedRistrettoWrapper,
    /// The encrypted ballot, bounded in length.
    pub ciphertext: Vec<u8>,
    /// The authentication tag over the ciphertext.
    pub auth_tag: [u8; 16],
}

/// The voting system's whole state: registered rings, poll records and the
/// per-poll vote bookkeeping, each table indexed by its dense identifier
/// space.  Identifiers are assigned monotonically and entries are never
/// deleted, so an identifier is exactly an index.
pub struct Pallet {
    /// The fixed number of keys per ring row (the layer count).
    pub num_ring_layers: usize,
    /// The most rows a registered ring may hold.
    pub max_members_in_ring: usize,
    /// The longest accepted poll description.
    pub max_description_length: usize,
    /// The longest accepted encrypted ballot.
    pub max_vote_size: usize,
    /// The most encrypted ballots one poll may store.
    pub max_votes_per_poll: usize,
    /// The deposit reserved from a poll's creator.
    pub submission_deposit: Balance,
    /// Registered ring matrices, by `RingId`.
    pub rings: Vec<Vec<Vec<CompressedRistrettoWrapper>>>,
    /// Poll records, by `PollId`.
    pub polls: Vec<Poll>,
    /// Plain tallies, one per poll.
    pub tallies: Vec<(u32, u32)>,
    /// Used linkable key images, one set per poll; never removed.
    pub nullifiers: Vec<Vec<CompressedRistrettoWrapper>>,
    /// Encrypted ballots, one ordered list per poll.
    pub encrypted: Vec<Vec<EncryptedVoteRecord>>,
}

/// The storage encoding of a plain ballot choice: one byte.
pub open spec fn spec_vote_byte(vote: VoteOption) -> u8 {
    match vote {
        VoteOption::Yea => 0,
        VoteOption::Nay => 1,
    }
}

/// What one plain ballot does to a `(yea, nay)` tally: the chosen counter
/// goes up by one, saturating at the counter's width; the other is
/// untouched.
pub open spec fn spec_count_vote(vote: VoteOption, t: (u32, u32)) -> (u32, u32) {
    match vote {
        VoteOption::Yea => (sat_inc(t.0), t.1),
        VoteOption::Nay => (t.0, sat_inc(t.1)),
    }
}

/// The canonical message a plain ballot signs: the poll identifier in its
/// fixed-width little-endian form, then the ballot byte.  Nothing else is
/// covered by the signature.
pub open spec fn spec_plain_message(poll_id: PollId, vote: VoteOption) -> Seq<u8> {
    spec_u64_le(poll_id) + seq![spec_vote_byte(vote)]
}

/// The canonical message an encrypted ballot signs: the poll identifier,
/// then the ephemeral public key, the ciphertext and the authentication
/// tag, in that fixed order.
pub open spec fn spec_encrypted_message(
    poll_id: PollId,
    eph: Seq<u8>,
    ciphertext: Seq<u8>,
    tag: Seq<u8>,
) -> Seq<u8> {
    spec_u64_le(poll_id) + eph + ciphertext + tag
}

/// Builds the canonical plain-ballot message.
pub fn plain_vote_message(poll_id: PollId, vote: &VoteOption) -> (r: Vec<u8>)
    ensures
        r@ == spec_plain_message(poll_id, *vote),
{
    let mut msg: Vec<u8> = Vec::new();
    push_u64_le(&mut msg, poll_id);
    let b: u8 = match vote {
        VoteOption::Yea => 0,
        VoteOption::Nay => 1,
    };
    msg.push(b);
    proof {
        assert(msg@ =~= spec_plain_message(poll_id, *vote));
    }
    msg
}

/// Builds the canonical encrypted-ballot message.
pub fn encrypted_vote_message(
    poll_id: PollId,
    ephemeral_public_key: &CompressedRistrettoWrapper,
    ciphertext: &Vec<u8>,
    auth_tag: &[u8; 16],
) -> (r: Vec<u8>)
    ensures
        r@ == spec_encrypted_message(poll_id, ephemeral_public_key@, ciphertext@, auth_tag@),
{
    let mut msg: Vec<u8> = Vec::new();
    push_u64_le(&mut msg, poll_id);
    push_bytes32(&mut msg, &ephemeral_public_key.0);
    push_bytes(&mut msg, ciphertext);
    push_bytes16(&mut msg, auth_tag);
    proof {
        assert(msg@ =~= spec_encrypted_message(
            poll_id,
            ephemeral_public_key@,
            ciphertext@,
            auth_tag@,
        ));
    }
    msg
}

impl Pallet {
    /// The configuration bounds, unchanged by every operation.
    pub open spec fn same_config(self, other: Pallet) -> bool {
        &&& self.num_ring_layers == other.num_ring_layers
        &&& self.max_members_in_ring == other.max_members_in_ring
        &&& self.max_description_length == other.max_description_length
        &&& self.max_vote_size == other.max_vote_size
        &&& self.max_votes_per_poll == other.max_votes_per_poll
        &&& self.submission_deposit == other.submission_deposit
    }

    /// A registered ring is within the member bound and every row holds
    /// exactly the configured layer count.
    pub open spec fn ring_stored_wf(self, ring: Vec<Vec<CompressedRistrettoWrapper>>) -> bool {
        &&& ring@.len() <= self.max_members_in_ring
        &&& ring_rows_uniform(ring@, self.num_ring_layers as int)
    }

    /// A stored poll record is internally consistent: its ring resolves and
    /// its description is within bounds.
    pub open spec fn poll_stored_wf(self, p: Poll) -> bool {
        &&& (p.ring_id as int) < self.rings@.len()
        &&& p.description@.len() <= self.max_description_length
    }

    /// Well-formedness of the whole state: the per-poll tables are aligned,
    /// every stored ring has the registered shape, and every poll record is
    /// internally consistent.
    pub open spec fn wf(self) -> bool {
        &&& self.num_ring_layers >= 1
        &&& self.tallies@.len() == self.polls@.len()
        &&& self.nullifiers@.len() == self.polls@.len()
        &&& self.encrypted@.len() == self.polls@.len()
        &&& forall|r: int|
            0 <= r < self.rings@.len() ==> self.ring_stored_wf(#[trigger] self.rings@[r])
        &&& forall|p: int|
            0 <= p < self.polls@.len() ==> self.poll_stored_wf(#[trigger] self.polls@[p])
    }

    /// A poll with this identifier exists.
    pub open spec fn has_poll(self, poll_id: PollId) -> bool {
        (poll_id as int) < self.polls@.len()
    }

    /// The poll exists and is accepting ballots.
    pub open spec fn poll_open(self, poll_id: PollId) -> bool {
        self.has_poll(poll_id) && self.polls@[poll_id as int].status == PollStatus::Voting
    }

    /// The ring bound to a poll.
    pub open spec fn spec_poll_ring(self, poll_id: PollId) -> Vec<Vec<CompressedRistrettoWrapper>>
        recommends
            self.has_poll(poll_id),
    {
        self.rings@[self.polls@[poll_id as int].ring_id as int]
    }

    /// The key image bytes are already recorded for this poll.
    pub open spec fn key_image_used(self, poll_id: PollId, b: Seq<u8>) -> bool
        recommends
            self.has_poll(poll_id),
    {
        image_in(self.nullifiers@[poll_id as int]@, b)
    }

    /// An empty system with the given configuration bounds.
    pub fn new(
        max_members_in_ring: usize,
        num_ring_layers: usize,
        max_description_length: usize,
        max_vote_size: usize,
        max_votes_per_poll: usize,
        submission_deposit: Balance,
    ) -> (r: Pallet)
        requires
            num_ring_layers >= 1,
        ensures
            r.wf(),
            r.num_ring_layers == num_ring_layers,
            r.max_members_in_ring == max_members_in_ring,
            r.max_description_length == max_description_length,
            r.max_vote_size == max_vote_size,
            r.max_votes_per_poll == max_votes_per_poll,
            r.submission_deposit == submission_deposit,
            r.rings@.len() == 0,
            r.polls@.len() == 0,
    {
        Pallet {
            num_ring_layers,
            max_members_in_ring,
            max_description_length,
            max_vote_size,
            max_votes_per_poll,
            submission_deposit,
            rings: Vec::new(),
            polls: Vec::new(),
            tallies: Vec::new(),
            nullifiers: Vec::new(),
            encrypted: Vec::new(),
        }
    }

    /// Registers an immutable ring of public-key rows and assigns it the
    /// next `RingId`.  The matrix must hold at most `max_members_in_ring`
    /// rows, each of exactly `num_ring_layers` keys; a wrong shape is
    /// rejected as `BadMetadata` and nothing is stored.  Authorization of
    /// `admin` is the caller's duty; the account is not recorded.
    pub fn register_ring_group(
        &mut self,
        admin: AccountId,
        ring: Vec<Vec<CompressedRistrettoWrapper>>,
    ) -> (r: Result<RingId, Error>)
        requires
            old(self).wf(),
        ensures
            final(self).wf(),
            old(self).same_config(*final(self)),
            final(self).polls@ == old(self).polls@,
            final(self).tallies@ == old(self).tallies@,
            final(self).nullifiers@ == old(self).nullifiers@,
            final(self).encrypted@ == old(self).encrypted@,
            old(self).ring_stored_wf(ring) ==> r == Ok::<RingId, Error>(
                old(self).rings@.len() as u64,
            ) && final(self).rings@ == old(self).rings@.push(ring),
            !old(self).ring_stored_wf(ring) ==> r == Err::<RingId, Error>(Error::BadMetadata)
                && final(self).rings@ == old(self).rings@,
    {
        let _ = admin;
        if ring.len() > self.max_members_in_ring {
            return Err(Error::BadMetadata);
        }
        if !check_ring_rows_uniform(&ring, self.num_ring_layers) {
            return Err(Error::BadMetadata);
        }
        let ring_id = self.rings.len() as u64;
        self.rings.push(ring);
        Ok(ring_id)
    }

    /// The record `create_poll` stores on success.
    pub open spec fn spec_new_poll(
        self,
        creator: AccountId,
        description: Vec<u8>,
        ring_id: RingId,
        metadata_ref: Option<[u8; 32]>,
        encryption_public_key: Option<[u8; 32]>,
    ) -> Poll {
        Poll {
            creator,
            description,
            status: PollStatus::Voting,
            submission_deposit: Deposit { who: creator, amount: self.submission_deposit },
            ring_id,
            metadata_ref,
            encryption_public_key,
            encryption_private_key: None,
        }
    }

    /// Creates a poll bound to a registered ring, with status `Voting`, a
    /// zero tally and no recorded key images, and assigns it the next
    /// `PollId`.
    ///
    /// The description must be within bounds; a given metadata hash must be
    /// resolvable in the external metadata store, whose answer the caller
    /// passes as `metadata_known`; the ring must be registered; and the
    /// creator's deposit must have been reservable, which the caller reports
    /// as `reserve_ok`.  The first failed condition, in that order, is the
    /// error, and nothing is stored.
    pub fn create_poll(
        &mut self,
        creator: AccountId,
        description: Vec<u8>,
        ring_id: RingId,
        metadata_ref: Option<[u8; 32]>,
        metadata_known: bool,
        encryption_public_key: Option<[u8; 32]>,
        reserve_ok: bool,
    ) -> (r: Result<PollId, Error>)
        requires
            old(self).wf(),
        ensures
            final(self).wf(),
            old(self).same_config(*final(self)),
            final(self).rings@ == old(self).rings@,
            r matches Err(_) ==> *final(self) == *old(self),
            description@.len() > old(self).max_description_length ==> r == Err::<PollId, Error>(
                Error::BadMetadata,
            ),
            description@.len() <= old(self).max_description_length && metadata_ref.is_some()
                && !metadata_known ==> r == Err::<PollId, Error>(Error::PreimageNotExist),
            description@.len() <= old(self).max_description_length && (metadata_ref.is_none()
                || metadata_known) && (ring_id as int) >= old(self).rings@.len() ==> r == Err::<
                PollId,
                Error,
            >(Error::RingGroupNotFound),
            description@.len() <= old(self).max_description_length && (metadata_ref.is_none()
                || metadata_known) && (ring_id as int) < old(self).rings@.len() && !reserve_ok
                ==> r == Err::<PollId, Error>(Error::DepositFailed),
            description@.len() <= old(self).max_description_length && (metadata_ref.is_none()
                || metadata_known) && (ring_id as int) < old(self).rings@.len() && reserve_ok ==> {
                &&& r == Ok::<PollId, Error>(old(self).polls@.len() as u64)
                &&& final(self).polls@ == old(self).polls@.push(
                    old(self).spec_new_poll(
                        creator,
                        description,
                        ring_id,
                        metadata_ref,
                        encryption_public_key,
                    ),
                )
                &&& final(self).tallies@ == old(self).tallies@.push((0u32, 0u32))
                &&& final(self).nullifiers@.len() == old(self).nullifiers@.len() + 1
                &&& final(self).nullifiers@[old(self).polls@.len() as int]@ == Seq::<
                    CompressedRistrettoWrapper,
                >::empty()
                &&& final(self).nullifiers@.subrange(0, old(self).polls@.len() as int) == old(
                    self,
                ).nullifiers@
                &&& final(self).encrypted@.len() == old(self).encrypted@.len() + 1
                &&& final(self).encrypted@[old(self).polls@.len() as int]@ == Seq::<
                    EncryptedVoteRecord,
                >::empty()
                &&& final(self).encrypted@.subrange(0, old(self).polls@.len() as int) == old(
                    self,
                ).encrypted@
            },
    {
        if description.len() > self.max_description_length {
            return Err(Error::BadMetadata);
        }
        if metadata_ref.is_some() && !metadata_known {
            return Err(Error::PreimageNotExist);
        }
        if ring_id >= self.rings.len() as u64 {
            return Err(Error::RingGroupNotFound);
        }
        if !reserve_ok {
            return Err(Error::DepositFailed);
        }
        let poll_id = self.polls.len() as u64;
        let deposit = Deposit { who: creator, amount: self.submission_deposit };
        let new_poll = Poll {
            creator,
            description,
            status: PollStatus::Voting,
            submission_deposit: deposit,
            ring_id,
            metadata_ref,
            encryption_public_key,
            encryption_private_key: None,
        };
        self.polls.push(new_poll);
        self.tallies.push((0, 0));
        self.nullifiers.push(Vec::new());
        self.encrypted.push(Vec::new());
        Ok(poll_id)
    }

    /// Flips an open poll to the terminal `Closed` state and returns the
    /// deposit to release to its creator.  The tally, the recorded key
    /// images and the stored ballots are retained.  Authorization is the
    /// caller's duty.
    pub fn close_poll(&mut self, poll_id: PollId) -> (r: Result<Deposit, Error>)
        requires
            old(self).wf(),
        ensures
            final(self).wf(),
            old(self).same_config(*final(self)),
            r matches Err(_) ==> *final(self) == *old(self),
            !old(self).has_poll(poll_id) ==> r == Err::<Deposit, Error>(Error::PollNotFound),
            old(self).has_poll(poll_id) && !old(self).poll_open(poll_id) ==> r == Err::<
                Deposit,
                Error,
            >(Error::PollAlreadyClosed),
            old(self).poll_open(poll_id) ==> {
                &&& r == Ok::<Deposit, Error>(
                    old(self).polls@[poll_id as int].submission_deposit,
                )
                &&& final(self).polls@ == old(self).polls@.update(
                    poll_id as int,
                    (Poll { status: PollStatus::Closed, ..old(self).polls@[poll_id as int] }),
                )
                &&& final(self).tallies@ == old(self).tallies@
                &&& final(self).nullifiers@ == old(self).nullifiers@
                &&& final(self).encrypted@ == old(self).encrypted@
                &&& final(self).rings@ == old(self).rings@
            },
    {
        if poll_id >= self.polls.len() as u64 {
            return Err(Error::PollNotFound);
        }
        let idx = poll_id as usize;
        if matches!(self.polls[idx].status, PollStatus::Closed) {
            return Err(Error::PollAlreadyClosed);
        }
        let p = &mut self.polls[idx];
        p.status = PollStatus::Closed;
        Ok(p.submission_deposit)
    }

    /// Closes an open poll for the encrypted-tally variant: flips it to the
    /// terminal `Closed` state, records the disclosed decryption key for
    /// public auditability, stores the asserted tally as final, and returns
    /// the deposit to release.
    ///
    /// The asserted tally is not checked against the stored ballots: the
    /// closer is trusted to have decrypted them off-system.  Authorization
    /// is the caller's duty.
    pub fn close_poll_disclosing(
        &mut self,
        poll_id: PollId,
        decryption_key: [u8; 32],
        asserted_tally: (u32, u32),
    ) -> (r: Result<Deposit, Error>)
        requires
            old(self).wf(),
        ensures
            final(self).wf(),
            old(self).same_config(*final(self)),
            r matches Err(_) ==> *final(self) == *old(self),
            !old(self).has_poll(poll_id) ==> r == Err::<Deposit, Error>(Error::PollNotFound),
            old(self).has_poll(poll_id) && !old(self).poll_open(poll_id) ==> r == Err::<
                Deposit,
                Error,
            >(Error::PollAlreadyClosed),
            old(self).poll_open(poll_id) ==> {
                &&& r == Ok::<Deposit, Error>(
                    old(self).polls@[poll_id as int].submission_deposit,
                )
                &&& final(self).polls@ == old(self).polls@.update(
                    poll_id as int,
                    (Poll {
                        status: PollStatus::Closed,
                        encryption_private_key: Some(decryption_key),
                        ..old(self).polls@[poll_id as int]
                    }),
                )
                &&& final(self).tallies@ == old(self).tallies@.update(
                    poll_id as int,
                    asserted_tally,
                )
                &&& final(self).nullifiers@ == old(self).nullifiers@
                &&& final(self).encrypted@ == old(self).encrypted@
                &&& final(self).rings@ == old(self).rings@
            },
    {
        if poll_id >= self.polls.len() as u64 {
            return Err(Error::PollNotFound);
        }
        let idx = poll_id as usize;
        if matches!(self.polls[idx].status, PollStatus::Closed) {
            return Err(Error::PollAlreadyClosed);
        }
        let p = &mut self.polls[idx];
        p.status = PollStatus::Closed;
        p.encryption_private_key = Some(decryption_key);
        let deposit = p.submission_deposit;
        self.tallies[idx] = asserted_tally;
        Ok(deposit)
    }

    /// The shape demanded of a ballot against this poll's stored ring:
    /// one response per ring row, a non-empty ring of uniform rows, and one
    /// key image per layer.
    pub open spec fn vote_shape_ok(
        self,
        poll_id: PollId,
        responses: Seq<ScalarWrapper>,
        key_images: Seq<CompressedRistrettoWrapper>,
    ) -> bool
        recommends
            self.has_poll(poll_id),
    {
        envelope_shape_ok(
            self.spec_poll_ring(poll_id)@.len() as int,
            self.num_ring_layers as int,
            responses,
            self.spec_poll_ring(poll_id)@,
            key_images,
        )
    }

    /// Whether every byte string of a ballot against this poll decodes:
    /// the challenge and responses as scalars, the stored ring and the key
    /// images as points.
    pub open spec fn vote_decodable(
        self,
        poll_id: PollId,
        challenge: ScalarWrapper,
        responses: Seq<ScalarWrapper>,
        key_images: Seq<CompressedRistrettoWrapper>,
    ) -> bool
        recommends
            self.has_poll(poll_id),
    {
        envelope_decodable(challenge, responses, self.spec_poll_ring(poll_id)@, key_images)
    }

    /// Whether the verification primitive accepts the ballot against this
    /// poll's stored ring and the given message.
    pub open spec fn vote_signature_accepted(
        self,
        poll_id: PollId,
        challenge: ScalarWrapper,
        responses: Seq<ScalarWrapper>,
        key_images: Seq<CompressedRistrettoWrapper>,
        message: Seq<u8>,
    ) -> bool
        recommends
            self.has_poll(poll_id),
    {
        clsag_accepts(
            challenge@,
            scalars_view(responses),
            ring_bytes_view(self.spec_poll_ring(poll_id)@),
            points_view(key_images),
            message,
        )
    }

    /// The decision on a plain ballot: the first gate it fails, in the
    /// mandated order (lifecycle, shape, decodability, signature,
    /// nullifier), or acceptance.
    pub open spec fn plain_vote_outcome(
        self,
        poll_id: PollId,
        vote: VoteOption,
        challenge: ScalarWrapper,
        responses: Seq<ScalarWrapper>,
        key_images: Seq<CompressedRistrettoWrapper>,
    ) -> Result<(), Error> {
        if !self.has_poll(poll_id) {
            Err(Error::PollNotFound)
        } else if !self.poll_open(poll_id) {
            Err(Error::PollNotOpen)
        } else if !self.vote_shape_ok(poll_id, responses, key_images) {
            Err(Error::BadMetadata)
        } else if !self.vote_decodable(poll_id, challenge, responses, key_images) {
            Err(Error::BadMetadata)
        } else if !self.vote_signature_accepted(
            poll_id,
            challenge,
            responses,
            key_images,
            spec_plain_message(poll_id, vote),
        ) {
            Err(Error::InvalidSignature)
        } else if self.key_image_used(poll_id, key_images[0]@) {
            Err(Error::AlreadyVoted)
        } else {
            Ok(())
        }
    }

    /// The decision on an encrypted ballot: as for a plain one, with the
    /// ciphertext bound checked first (the transport bound) and the ballot
    /// store's capacity checked last, before anything is recorded.
    pub open spec fn encrypted_vote_outcome(
        self,
        poll_id: PollId,
        ephemeral_public_key: CompressedRistrettoWrapper,
        ciphertext: Seq<u8>,
        auth_tag: [u8; 16],
        challenge: ScalarWrapper,
        responses: Seq<ScalarWrapper>,
        key_images: Seq<CompressedRistrettoWrapper>,
    ) -> Result<(), Error> {
        if ciphertext.len() > self.max_vote_size {
            Err(Error::BadMetadata)
        } else if !self.has_poll(poll_id) {
            Err(Error::PollNotFound)
        } else if !self.poll_open(poll_id) {
            Err(Error::PollNotOpen)
        } else if !self.vote_shape_ok(poll_id, responses, key_images) {
            Err(Error::BadMetadata)
        } else if !self.vote_decodable(poll_id, challenge, responses, key_images) {
            Err(Error::BadMetadata)
        } else if !self.vote_signature_accepted(
            poll_id,
            challenge,
            responses,
            key_images,
            spec_encrypted_message(poll_id, ephemeral_public_key@, ciphertext, auth_tag@),
        ) {
            Err(Error::InvalidSignature)
        } else if self.key_image_used(poll_id, key_images[0]@) {
            Err(Error::AlreadyVoted)
        } else if self.encrypted@[poll_id as int]@.len() >= self.max_votes_per_poll {
            Err(Error::TooManyVotes)
        } else {
            Ok(())
        }
    }

    /// Admits or rejects a plain anonymous ballot.
    ///
    /// The poll must exist and be open; the envelope must have the shape of
    /// the poll's stored ring (the ring is never taken from the caller);
    /// every byte string must decode; the verification primitive must
    /// accept the envelope over the canonical message; and the first key
    /// image must be fresh for this poll.  Acceptance records that key
    /// image and increments exactly one tally counter; any rejection leaves
    /// all state exactly as it was.
    pub fn anonymous_vote(
        &mut self,
        poll_id: PollId,
        vote: VoteOption,
        challenge: ScalarWrapper,
        responses: Vec<ScalarWrapper>,
        key_images: Vec<CompressedRistrettoWrapper>,
    ) -> (r: Result<(), Error>)
        requires
            old(self).wf(),
        ensures
            final(self).wf(),
            old(self).same_config(*final(self)),
            r == old(self).plain_vote_outcome(poll_id, vote, challenge, responses@, key_images@),
            r matches Err(_) ==> *final(self) == *old(self),
            r == Ok::<(), Error>(()) ==> {
                &&& final(self).rings@ == old(self).rings@
                &&& final(self).polls@ == old(self).polls@
                &&& final(self).encrypted@ == old(self).encrypted@
                &&& final(self).tallies@ == old(self).tallies@.update(
                    poll_id as int,
                    spec_count_vote(vote, old(self).tallies@[poll_id as int]),
                )
                &&& final(self).nullifiers@.len() == old(self).nullifiers@.len()
                &&& final(self).nullifiers@[poll_id as int]@ == old(self).nullifiers@[poll_id as int]@.push(
                    key_images@[0],
                )
                &&& forall|p: int|
                    0 <= p < old(self).nullifiers@.len() && p != poll_id as int
                        ==> final(self).nullifiers@[p] == old(self).nullifiers@[p]
            },
    {
        if poll_id >= self.polls.len() as u64 {
            return Err(Error::PollNotFound);
        }
        let idx = poll_id as usize;
        if matches!(self.polls[idx].status, PollStatus::Closed) {
            return Err(Error::PollNotOpen);
        }
        let ring_id = self.polls[idx].ring_id;
        if ring_id >= self.rings.len() as u64 {
            return Err(Error::RingGroupNotFound);
        }
        let ring_idx = ring_id as usize;
        if responses.len() != self.rings[ring_idx].len() {
            return Err(Error::BadMetadata);
        }
        if self.rings[ring_idx].len() == 0 {
            return Err(Error::BadMetadata);
        }
        if !check_ring_rows_uniform(&self.rings[ring_idx], self.num_ring_layers) {
            return Err(Error::BadMetadata);
        }
        if key_images.len() != self.num_ring_layers {
            return Err(Error::BadMetadata);
        }
        let message = plain_vote_message(poll_id, &vote);
        match verify_envelope(&challenge, &responses, &self.rings[ring_idx], &key_images, &message) {
            None => Err(Error::BadMetadata),
            Some(false) => Err(Error::InvalidSignature),
            Some(true) => {
                let ki0 = key_images[0];
                if contains_image(&self.nullifiers[idx], &ki0) {
                    return Err(Error::AlreadyVoted);
                }
                let row = &mut self.nullifiers[idx];
                row.push(ki0);
                let t = self.tallies[idx];
                let counted = match vote {
                    VoteOption::Yea => (
                        if t.0 < u32::MAX {
                            t.0 + 1
                        } else {
                            t.0
                        },
                        t.1,
                    ),
                    VoteOption::Nay => (
                        t.0,
                        if t.1 < u32::MAX {
                            t.1 + 1
                        } else {
                            t.1
                        },
                    ),
                };
                self.tallies[idx] = counted;
                Ok(())
            },
        }
    }

    /// Admits or rejects an encrypted anonymous ballot.
    ///
    /// Gated as a plain ballot is, over the canonical message covering the
    /// encrypted triple, with the ciphertext bound checked first and the
    /// poll's ballot-store capacity checked before anything is recorded.
    /// Acceptance records the first key image and appends the record to the
    /// poll's ordered ballot store; the plain tally is untouched, and any
    /// rejection leaves all state exactly as it was.
    pub fn anonymous_vote_encrypted(
        &mut self,
        poll_id: PollId,
        ephemeral_public_key: CompressedRistrettoWrapper,
        ciphertext: Vec<u8>,
        auth_tag: [u8; 16],
        challenge: ScalarWrapper,
        responses: Vec<ScalarWrapper>,
        key_images: Vec<CompressedRistrettoWrapper>,
    ) -> (r: Result<(), Error>)
        requires
            old(self).wf(),
        ensures
            final(self).wf(),
            old(self).same_config(*final(self)),
            r == old(self).encrypted_vote_outcome(
                poll_id,
                ephemeral_public_key,
                ciphertext@,
                auth_tag,
                challenge,
                responses@,
                key_images@,
            ),
            r matches Err(_) ==> *final(self) == *old(self),
            r == Ok::<(), Error>(()) ==> {
                &&& final(self).rings@ == old(self).rings@
                &&& final(self).polls@ == old(self).polls@
                &&& final(self).tallies@ == old(self).tallies@
                &&& final(self).nullifiers@.len() == old(self).nullifiers@.len()
                &&& final(self).nullifiers@[poll_id as int]@ == old(self).nullifiers@[poll_id as int]@.push(
                    key_images@[0],
                )
                &&& forall|p: int|
                    0 <= p < old(self).nullifiers@.len() && p != poll_id as int
                        ==> final(self).nullifiers@[p] == old(self).nullifiers@[p]
                &&& final(self).encrypted@.len() == old(self).encrypted@.len()
                &&& final(self).encrypted@[poll_id as int]@ == old(self).encrypted@[poll_id as int]@.push(
                    (EncryptedVoteRecord { ephemeral_public_key, ciphertext, auth_tag }),
                )
                &&& forall|p: int|
                    0 <= p < old(self).encrypted@.len() && p != poll_id as int
                        ==> final(self).encrypted@[p] == old(self).encrypted@[p]
            },
    {
        if ciphertext.len() > self.max_vote_size {
            return Err(Error::BadMetadata);
        }
        if poll_id >= self.polls.len() as u64 {
            return Err(Error::PollNotFound);
        }
        let idx = poll_id as usize;
        if matches!(self.polls[idx].status, PollStatus::Closed) {
            return Err(Error::PollNotOpen);
        }
        let ring_id = self.polls[idx].ring_id;
        if ring_id >= self.rings.len() as u64 {
            return Err(Error::RingGroupNotFound);
        }
        let ring_idx = ring_id as usize;
        if responses.len() != self.rings[ring_idx].len() {
            return Err(Error::BadMetadata);
        }
        if self.rings[ring_idx].len() == 0 {
            return Err(Error::BadMetadata);
        }
        if !check_ring_rows_uniform(&self.rings[ring_idx], self.num_ring_layers) {
            return Err(Error::BadMetadata);
        }
        if key_images.len() != self.num_ring_layers {
            return Err(Error::BadMetadata);
        }
        let message = encrypted_vote_message(poll_id, &ephemeral_public_key, &ciphertext, &auth_tag);
        match verify_envelope(&challenge, &responses, &self.rings[ring_idx], &key_images, &message) {
            None => Err(Error::BadMetadata),
            Some(false) => Err(Error::InvalidSignature),
            Some(true) => {
                let ki0 = key_images[0];
                if contains_image(&self.nullifiers[idx], &ki0) {
                    return Err(Error::AlreadyVoted);
                }
                if self.encrypted[idx].len() >= self.max_votes_per_poll {
                    return Err(Error::TooManyVotes);
                }
                let row = &mut self.nullifiers[idx];
                row.push(ki0);
                let store = &mut self.encrypted[idx];
                store.push(EncryptedVoteRecord { ephemeral_public_key, ciphertext, auth_tag });
                Ok(())
            },
        }
    }

    /// The number of polls created so far; also the next `PollId`.
    pub fn poll_count(&self) -> (r: u64)
        ensures
            r == self.polls@.len(),
    {
        self.polls.len() as u64
    }

    /// The number of rings registered so far; also the next `RingId`.
    pub fn ring_group_count(&self) -> (r: u64)
        ensures
            r == self.rings@.len(),
    {
        self.rings.len() as u64
    }

    /// The poll record, if the identifier is known.
    pub fn polls(&self, poll_id: PollId) -> (r: Option<&Poll>)
        ensures
            match r {
                Some(p) => self.has_poll(poll_id) && *p == self.polls@[poll_id as int],
                None => !self.has_poll(poll_id),
            },
    {
        if poll_id < self.polls.len() as u64 {
            Some(&self.polls[poll_id as usize])
        } else {
            None
        }
    }

    /// The registered ring matrix, if the identifier is known.
    pub fn ring_groups(&self, ring_id: RingId) -> (r: Option<&Vec<Vec<CompressedRistrettoWrapper>>>)
        ensures
            match r {
                Some(g) => (ring_id as int) < self.rings@.len() && *g == self.rings@[ring_id as int],
                None => (ring_id as int) >= self.rings@.len(),
            },
    {
        if ring_id < self.rings.len() as u64 {
            Some(&self.rings[ring_id as usize])
        } else {
            None
        }
    }

    /// The tally of a poll; an unknown poll tallies `(0, 0)`.
    pub fn poll_votes(&self, poll_id: PollId) -> (r: (u32, u32))
        requires
            self.wf(),
        ensures
            r == (if self.has_poll(poll_id) {
                self.tallies@[poll_id as int]
            } else {
                (0u32, 0u32)
            }),
    {
        if poll_id < self.tallies.len() as u64 {
            self.tallies[poll_id as usize]
        } else {
            (0, 0)
        }
    }

    /// Whether the key image is recorded for the poll; an unknown poll has
    /// no recorded images.
    pub fn used_key_images(&self, poll_id: PollId, key_image: &CompressedRistrettoWrapper) -> (r:
        bool)
        requires
            self.wf(),
        ensures
            r == (self.has_poll(poll_id) && self.key_image_used(poll_id, key_image@)),
    {
        if poll_id < self.nullifiers.len() as u64 {
            contains_image(&self.nullifiers[poll_id as usize], key_image)
        } else {
            false
        }
    }

    /// The ring a poll is bound to, while the binding stands: present from
    /// creation until closure, when it is cleared.
    pub fn poll_ring_id(&self, poll_id: PollId) -> (r: Option<RingId>)
        ensures
            r == (if self.poll_open(poll_id) {
                Some(self.polls@[poll_id as int].ring_id)
            } else {
                None::<RingId>
            }),
    {
        if poll_id < self.polls.len() as u64 && matches!(
            self.polls[poll_id as usize].status,
            PollStatus::Voting,
        ) {
            Some(self.polls[poll_id as usize].ring_id)
        } else {
            None
        }
    }

    /// The metadata hash a poll carries, while the binding stands: present
    /// from creation until closure, when it is cleared.
    pub fn poll_metadata(&self, poll_id: PollId) -> (r: Option<[u8; 32]>)
        ensures
            r == (if self.poll_open(poll_id) {
                self.polls@[poll_id as int].metadata_ref
            } else {
                None::<[u8; 32]>
            }),
    {
        if poll_id < self.polls.len() as u64 && matches!(
            self.polls[poll_id as usize].status,
            PollStatus::Voting,
        ) {
            self.polls[poll_id as usize].metadata_ref
        } else {
            None
        }
    }

    /// Law: a malformed plain ballot is rejected as `BadMetadata` whatever
    /// its cryptographic content.  The decision is fixed for every
    /// challenge and every response and key-image byte string of the given
    /// (wrong) dimensions, so the verification primitive's verdict never
    /// enters it: shape is rejected before crypto.
    pub proof fn lemma_shape_rejected_before_crypto(
        self,
        poll_id: PollId,
        vote: VoteOption,
        challenge: ScalarWrapper,
        responses: Seq<ScalarWrapper>,
        key_images: Seq<CompressedRistrettoWrapper>,
    )
        requires
            self.poll_open(poll_id),
            !self.vote_shape_ok(poll_id, responses, key_images),
        ensures
            self.plain_vote_outcome(poll_id, vote, challenge, responses, key_images) == Err::<
                (),
                Error,
            >(Error::BadMetadata),
    {
    }

    /// Law: the same holds of an encrypted ballot within the transport
    /// bound: a wrong shape is `BadMetadata` whatever the signature bytes.
    pub proof fn lemma_encrypted_shape_rejected_before_crypto(
        self,
        poll_id: PollId,
        ephemeral_public_key: CompressedRistrettoWrapper,
        ciphertext: Seq<u8>,
        auth_tag: [u8; 16],
        challenge: ScalarWrapper,
        responses: Seq<ScalarWrapper>,
        key_images: Seq<CompressedRistrettoWrapper>,
    )
        requires
            ciphertext.len() <= self.max_vote_size,
            self.poll_open(poll_id),
            !self.vote_shape_ok(poll_id, responses, key_images),
        ensures
            self.encrypted_vote_outcome(
                poll_id,
                ephemeral_public_key,
                ciphertext,
                auth_tag,
                challenge,
                responses,
                key_images,
            ) == Err::<(), Error>(Error::BadMetadata),
    {
    }

    /// Law: replays are rejected.  Let `post` be the state an accepted
    /// plain ballot with first key image `key_images[0]` leaves, as
    /// `anonymous_vote` describes it.  Then any second ballot for the same
    /// poll whose first key image carries the same bytes is rejected —
    /// even with different responses or challenge — and when it passes
    /// every earlier gate the error is exactly `AlreadyVoted`.  Since
    /// every rejection leaves the state unchanged, the tally keeps exactly
    /// the one increment of the accepted ballot.
    pub proof fn lemma_replay_rejected(
        self,
        post: Pallet,
        poll_id: PollId,
        vote: VoteOption,
        challenge: ScalarWrapper,
        responses: Seq<ScalarWrapper>,
        key_images: Seq<CompressedRistrettoWrapper>,
        vote2: VoteOption,
        challenge2: ScalarWrapper,
        responses2: Seq<ScalarWrapper>,
        key_images2: Seq<CompressedRistrettoWrapper>,
    )
        requires
            self.wf(),
            self.plain_vote_outcome(poll_id, vote, challenge, responses, key_images) == Ok::<
                (),
                Error,
            >(()),
            post.polls@ == self.polls@,
            post.rings@ == self.rings@,
            post.num_ring_layers == self.num_ring_layers,
            post.nullifiers@.len() == self.nullifiers@.len(),
            post.nullifiers@[poll_id as int]@ == self.nullifiers@[poll_id as int]@.push(
                key_images[0],
            ),
            key_images2.len() > 0,
            key_images2[0]@ == key_images[0]@,
        ensures
            post.key_image_used(poll_id, key_images2[0]@),
            post.plain_vote_outcome(poll_id, vote2, challenge2, responses2, key_images2) matches Err(_),
            post.vote_shape_ok(poll_id, responses2, key_images2) && post.vote_decodable(
                poll_id,
                challenge2,
                responses2,
                key_images2,
            ) && post.vote_signature_accepted(
                poll_id,
                challenge2,
                responses2,
                key_images2,
                spec_plain_message(poll_id, vote2),
            ) ==> post.plain_vote_outcome(poll_id, vote2, challenge2, responses2, key_images2)
                == Err::<(), Error>(Error::AlreadyVoted),
    {
        let recorded = post.nullifiers@[poll_id as int]@;
        let last = recorded.len() - 1;
        assert(recorded[last]@ == key_images2[0]@);
        assert(post.key_image_used(poll_id, key_images2[0]@));
    }

    /// Law: a closed poll rejects every plain ballot as `PollNotOpen`,
    /// whatever the signature's validity; and closing is terminal, so the
    /// rejection stands for good.
    pub proof fn lemma_closed_poll_rejects(
        self,
        poll_id: PollId,
        vote: VoteOption,
        challenge: ScalarWrapper,
        responses: Seq<ScalarWrapper>,
        key_images: Seq<CompressedRistrettoWrapper>,
    )
        requires
            self.has_poll(poll_id),
            self.polls@[poll_id as int].status == PollStatus::Closed,
        ensures
            self.plain_vote_outcome(poll_id, vote, challenge, responses, key_images) == Err::<
                (),
                Error,
            >(Error::PollNotOpen),
    {
    }

    /// Law: a closed poll likewise rejects every encrypted ballot within
    /// the transport bound as `PollNotOpen`.
    pub proof fn lemma_closed_poll_rejects_encrypted(
        self,
        poll_id: PollId,
        ephemeral_public_key: CompressedRistrettoWrapper,
        ciphertext: Seq<u8>,
        auth_tag: [u8; 16],
        challenge: ScalarWrapper,
        responses: Seq<ScalarWrapper>,
        key_images: Seq<CompressedRistrettoWrapper>,
    )
        requires
            ciphertext.len() <= self.max_vote_size,
            self.has_poll(poll_id),
            self.polls@[poll_id as int].status == PollStatus::Closed,
        ensures
            self.encrypted_vote_outcome(
                poll_id,
                ephemeral_public_key,
                ciphertext,
                auth_tag,
                challenge,
                responses,
                key_images,
            ) == Err::<(), Error>(Error::PollNotOpen),
    {
    }

    /// The ordered encrypted ballots of a poll, if the identifier is known.
    pub fn encrypted_votes(&self, poll_id: PollId) -> (r: Option<&Vec<EncryptedVoteRecord>>)
        requires
            self.wf(),
        ensures
            match r {
                Some(v) => self.has_poll(poll_id) && *v == self.encrypted@[poll_id as int],
                None => !self.has_poll(poll_id),
            },
    {
        if poll_id < self.encrypted.len() as u64 {
            Some(&self.encrypted[poll_id as usize])
        } else {
            None
        }
    }
}

} // verus!
