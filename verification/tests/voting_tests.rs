use curve25519_dalek::constants::RISTRETTO_BASEPOINT_POINT;
use curve25519_dalek::ristretto::RistrettoPoint;
use curve25519_dalek::scalar::Scalar;
use nazgul::clsag::CLSAG;
use nazgul::traits::{Sign, Verify};
use ring_voting::envelope::{CLSAGWrapper, CompressedRistrettoWrapper, ScalarWrapper};
use ring_voting::voting::{
    encrypted_vote_message, plain_vote_message, Error, Pallet, PollStatus, VoteOption,
};
use sha2::Sha512;

const ALICE: u64 = 1;

/// A fixed-seed linear congruential generator, so every run is reproducible:
/// no entropy source is consulted anywhere in these tests.
struct TestRng(u64);

impl Default for TestRng {
    fn default() -> Self {
        TestRng(0xDEADBEEFCAFEBABE)
    }
}

impl rand_core::RngCore for TestRng {
    fn next_u32(&mut self) -> u32 {
        self.next_u64() as u32
    }

    fn next_u64(&mut self) -> u64 {
        self.0 = self
            .0
            .wrapping_mul(6364136223846793005)
            .wrapping_add(1442695040888963407);
        self.0
    }

    fn fill_bytes(&mut self, dest: &mut [u8]) {
        for chunk in dest.chunks_mut(8) {
            let b = self.next_u64().to_le_bytes();
            chunk.copy_from_slice(&b[..chunk.len()]);
        }
    }

    fn try_fill_bytes(&mut self, dest: &mut [u8]) -> Result<(), rand_core::Error> {
        self.fill_bytes(dest);
        Ok(())
    }
}

impl rand_core::CryptoRng for TestRng {}

/// Secret keys and decoy rows for a ring of `nr` rows by `nc` layers; the
/// signer's public row is inserted by the signing primitive.
fn make_signer(nr: usize, nc: usize, rng: &mut TestRng) -> (Vec<Scalar>, Vec<Vec<RistrettoPoint>>) {
    let ks: Vec<Scalar> = (0..nc).map(|_| Scalar::random(rng)).collect();
    let decoys: Vec<Vec<RistrettoPoint>> = (0..nr - 1)
        .map(|_| (0..nc).map(|_| RistrettoPoint::random(rng)).collect())
        .collect();
    (ks, decoys)
}

/// Signs `message` and hands back the envelope in its 32-byte wire form.
fn sign_message(
    ks: &[Scalar],
    decoys: &[Vec<RistrettoPoint>],
    message: &[u8],
) -> (
    ScalarWrapper,
    Vec<ScalarWrapper>,
    Vec<Vec<CompressedRistrettoWrapper>>,
    Vec<CompressedRistrettoWrapper>,
) {
    sign_message_at(ks, decoys, 1, message)
}

/// As `sign_message`, with the signer's row inserted at `secret_index`.
fn sign_message_at(
    ks: &[Scalar],
    decoys: &[Vec<RistrettoPoint>],
    secret_index: usize,
    message: &[u8],
) -> (
    ScalarWrapper,
    Vec<ScalarWrapper>,
    Vec<Vec<CompressedRistrettoWrapper>>,
    Vec<CompressedRistrettoWrapper>,
) {
    let sig = CLSAG::sign::<Sha512, TestRng>(ks.to_vec(), decoys.to_vec(), secret_index, message);
    assert!(CLSAG::verify::<Sha512>(sig.clone(), message));
    let challenge = ScalarWrapper(sig.challenge.to_bytes());
    let responses = sig
        .responses
        .iter()
        .map(|r| ScalarWrapper(r.to_bytes()))
        .collect();
    let ring = sig
        .ring
        .iter()
        .map(|row| {
            row.iter()
                .map(|p| CompressedRistrettoWrapper(p.compress().to_bytes()))
                .collect()
        })
        .collect();
    let key_images = sig
        .key_images
        .iter()
        .map(|k| CompressedRistrettoWrapper(k.compress().to_bytes()))
        .collect();
    (challenge, responses, ring, key_images)
}

/// A deterministic encryption key pair: the private scalar's bytes and the
/// compressed public point's bytes.
fn encryption_keys(rng: &mut TestRng) -> ([u8; 32], [u8; 32]) {
    let private = Scalar::random(rng);
    let public = private * RISTRETTO_BASEPOINT_POINT;
    (private.to_bytes(), public.compress().to_bytes())
}

/// The mock chain configuration: rings of up to 128 members with one key
/// each, descriptions up to 256 bytes, ballots up to 64 bytes, at most
/// 1000 stored ballots per poll, a deposit of 10.
fn new_pallet() -> Pallet {
    Pallet::new(128, 1, 256, 64, 1000, 10)
}

#[test]
fn register_ring_group() {
    let mut pallet = new_pallet();
    let mut rng = TestRng::default();
    let (ks, decoys) = make_signer(128, 1, &mut rng);
    let (_, _, ring, _) = sign_message(&ks, &decoys, b"seed");

    assert!(pallet.register_ring_group(ALICE, ring).is_ok());
    assert!(pallet.ring_groups(0).is_some());
}

#[test]
fn create_poll() {
    let mut pallet = new_pallet();
    let description = b"Poll 0".to_vec();
    let ring_id = 0;
    let mut rng = TestRng::default();
    let (ks, decoys) = make_signer(128, 1, &mut rng);
    let (_, _, ring, _) = sign_message(&ks, &decoys, b"seed");
    let (_, encryption_pubkey) = encryption_keys(&mut rng);

    assert!(pallet.register_ring_group(ALICE, ring).is_ok());
    assert!(pallet.ring_groups(ring_id).is_some());

    assert!(pallet
        .create_poll(
            ALICE,
            description.clone(),
            ring_id,
            None,
            true,
            Some(encryption_pubkey),
            true,
        )
        .is_ok());

    let poll = pallet.polls(0).unwrap();
    assert_eq!(poll.description, description);
    assert_eq!(poll.status, PollStatus::Voting);
    assert_eq!(poll.encryption_public_key, Some(encryption_pubkey));
}

#[test]
fn close_poll() {
    let mut pallet = new_pallet();
    let poll_id = 0;
    let description = b"Poll 0".to_vec();
    let ring_id = 0;
    let mut rng = TestRng::default();
    let (ks, decoys) = make_signer(128, 1, &mut rng);
    let (_, _, ring, _) = sign_message(&ks, &decoys, b"seed");
    let (encryption_privkey, encryption_pubkey) = encryption_keys(&mut rng);
    let tally = (5u32, 3u32);

    assert!(pallet.register_ring_group(ALICE, ring).is_ok());
    assert!(pallet.ring_groups(ring_id).is_some());

    assert!(pallet
        .create_poll(
            ALICE,
            description.clone(),
            ring_id,
            None,
            true,
            Some(encryption_pubkey),
            true,
        )
        .is_ok());
    let poll = pallet.polls(poll_id).unwrap();
    assert_eq!(poll.description, description);
    assert_eq!(poll.status, PollStatus::Voting);

    let released = pallet
        .close_poll_disclosing(poll_id, encryption_privkey, tally)
        .unwrap();
    assert_eq!(released.who, ALICE);
    assert_eq!(released.amount, 10);

    let closed_poll = pallet.polls(poll_id).unwrap();
    assert_eq!(closed_poll.status, PollStatus::Closed);
    assert_eq!(closed_poll.encryption_private_key, Some(encryption_privkey));
    assert_eq!(pallet.poll_votes(poll_id), tally);
}

#[test]
fn anonymous_vote_encrypted() {
    let mut pallet = new_pallet();
    let poll_id = 0;
    let description = b"Poll 0".to_vec();
    let ring_id = 0;
    let mut rng = TestRng::default();
    let (_, encryption_pubkey) = encryption_keys(&mut rng);

    let ephemeral_pubkey = CompressedRistrettoWrapper([2u8; 32]);
    let ciphertext = vec![1u8, 2, 3, 4];
    let auth_tag = [0u8; 16];

    let (ks, decoys) = make_signer(128, 1, &mut rng);
    let message = encrypted_vote_message(poll_id, &ephemeral_pubkey, &ciphertext, &auth_tag);
    let (challenge, responses, ring, key_images) = sign_message(&ks, &decoys, &message);

    assert!(pallet.register_ring_group(ALICE, ring).is_ok());
    assert!(pallet.ring_groups(ring_id).is_some());

    assert!(pallet
        .create_poll(
            ALICE,
            description,
            ring_id,
            None,
            true,
            Some(encryption_pubkey),
            true,
        )
        .is_ok());
    assert_eq!(pallet.polls(poll_id).unwrap().status, PollStatus::Voting);

    assert!(pallet
        .anonymous_vote_encrypted(
            poll_id,
            ephemeral_pubkey,
            ciphertext,
            auth_tag,
            challenge,
            responses,
            key_images,
        )
        .is_ok());

    let encrypted_votes = pallet.encrypted_votes(poll_id).unwrap();
    assert_eq!(encrypted_votes.len(), 1);
    assert_eq!(encrypted_votes[0].ephemeral_public_key, ephemeral_pubkey);
    assert_eq!(encrypted_votes[0].ciphertext, vec![1u8, 2, 3, 4]);
    assert_eq!(encrypted_votes[0].auth_tag, auth_tag);
}

#[test]
fn prevent_double_voting() {
    let mut pallet = new_pallet();
    let poll_id = 0;
    let ring_id = 0;
    let mut rng = TestRng::default();
    let (_, encryption_pubkey) = encryption_keys(&mut rng);

    let ephemeral_pubkey = CompressedRistrettoWrapper([2u8; 32]);
    let ciphertext = vec![1u8, 2, 3, 4];
    let auth_tag = [0u8; 16];

    let (ks, decoys) = make_signer(128, 1, &mut rng);
    let message = encrypted_vote_message(poll_id, &ephemeral_pubkey, &ciphertext, &auth_tag);
    let (challenge, responses, ring, key_images) = sign_message(&ks, &decoys, &message);

    assert!(pallet.register_ring_group(ALICE, ring).is_ok());
    assert!(pallet
        .create_poll(
            ALICE,
            b"Poll 0".to_vec(),
            ring_id,
            None,
            true,
            Some(encryption_pubkey),
            true,
        )
        .is_ok());

    // The first ballot is admitted.
    assert!(pallet
        .anonymous_vote_encrypted(
            poll_id,
            ephemeral_pubkey,
            ciphertext.clone(),
            auth_tag,
            challenge,
            responses.clone(),
            key_images.clone(),
        )
        .is_ok());

    // The identical key image is a replay, whoever submits it.
    assert_eq!(
        pallet.anonymous_vote_encrypted(
            poll_id,
            ephemeral_pubkey,
            ciphertext,
            auth_tag,
            challenge,
            responses,
            key_images,
        ),
        Err(Error::AlreadyVoted)
    );
    assert_eq!(pallet.encrypted_votes(poll_id).unwrap().len(), 1);
}

#[test]
fn cannot_vote_on_closed_poll() {
    let mut pallet = new_pallet();
    let poll_id = 0;
    let ring_id = 0;
    let mut rng = TestRng::default();
    let (encryption_privkey, encryption_pubkey) = encryption_keys(&mut rng);
    let tally = (0u32, 0u32);

    let ephemeral_pubkey = CompressedRistrettoWrapper([2u8; 32]);
    let ciphertext = vec![1u8, 2, 3, 4];
    let auth_tag = [0u8; 16];

    let (ks, decoys) = make_signer(128, 1, &mut rng);
    let message = encrypted_vote_message(poll_id, &ephemeral_pubkey, &ciphertext, &auth_tag);
    let (challenge, responses, ring, key_images) = sign_message(&ks, &decoys, &message);

    assert!(pallet.register_ring_group(ALICE, ring).is_ok());
    assert!(pallet
        .create_poll(
            ALICE,
            b"Poll 0".to_vec(),
            ring_id,
            None,
            true,
            Some(encryption_pubkey),
            true,
        )
        .is_ok());

    assert!(pallet
        .close_poll_disclosing(poll_id, encryption_privkey, tally)
        .is_ok());

    // A ballot after closure fails however valid its signature is.
    assert_eq!(
        pallet.anonymous_vote_encrypted(
            poll_id,
            ephemeral_pubkey,
            ciphertext,
            auth_tag,
            challenge,
            responses,
            key_images,
        ),
        Err(Error::PollNotOpen)
    );
}

#[test]
fn scenario_ring_sixteen_two_layers() {
    // Ring height 16, layer count 2: register, bind a poll, vote Yea with a
    // valid ballot, then replay the same key image with Nay.
    let mut pallet = Pallet::new(16, 2, 256, 64, 1000, 10);
    let mut rng = TestRng::default();
    let (ks, decoys) = make_signer(16, 2, &mut rng);

    let poll_id = 0;
    let yea_message = plain_vote_message(poll_id, &VoteOption::Yea);
    let (challenge, responses, ring, key_images) = sign_message(&ks, &decoys, &yea_message);

    let ring_id = pallet.register_ring_group(ALICE, ring).unwrap();
    let created = pallet
        .create_poll(ALICE, b"Poll 0".to_vec(), ring_id, None, true, None, true)
        .unwrap();
    assert_eq!(created, poll_id);

    assert!(pallet
        .anonymous_vote(poll_id, VoteOption::Yea, challenge, responses, key_images.clone())
        .is_ok());
    assert_eq!(pallet.poll_votes(poll_id), (1, 0));

    // A fresh, validly signed Nay ballot from the same signer carries the
    // same key image and is rejected; the tally keeps one increment.
    let nay_message = plain_vote_message(poll_id, &VoteOption::Nay);
    let (challenge2, responses2, _, key_images2) = sign_message(&ks, &decoys, &nay_message);
    assert_eq!(key_images2[0], key_images[0]);
    assert_eq!(
        pallet.anonymous_vote(poll_id, VoteOption::Nay, challenge2, responses2, key_images2),
        Err(Error::AlreadyVoted)
    );
    assert_eq!(pallet.poll_votes(poll_id), (1, 0));
}

#[test]
fn create_poll_errors() {
    let mut pallet = new_pallet();
    let mut rng = TestRng::default();
    let (ks, decoys) = make_signer(128, 1, &mut rng);
    let (_, _, ring, _) = sign_message(&ks, &decoys, b"seed");
    assert!(pallet.register_ring_group(ALICE, ring).is_ok());

    // An unresolvable metadata hash.
    assert_eq!(
        pallet.create_poll(ALICE, b"m".to_vec(), 0, Some([7u8; 32]), false, None, true),
        Err(Error::PreimageNotExist)
    );
    // An unregistered ring.
    assert_eq!(
        pallet.create_poll(ALICE, b"r".to_vec(), 5, None, true, None, true),
        Err(Error::RingGroupNotFound)
    );
    // A failed deposit reservation.
    assert_eq!(
        pallet.create_poll(ALICE, b"d".to_vec(), 0, None, true, None, false),
        Err(Error::DepositFailed)
    );
    // An over-long description.
    let long = vec![0u8; 257];
    assert_eq!(
        pallet.create_poll(ALICE, long, 0, None, true, None, true),
        Err(Error::BadMetadata)
    );
    // Nothing was created.
    assert_eq!(pallet.poll_count(), 0);

    // A resolvable metadata hash is kept and readable while the poll is
    // open.
    assert!(pallet
        .create_poll(ALICE, b"ok".to_vec(), 0, Some([7u8; 32]), true, None, true)
        .is_ok());
    assert_eq!(pallet.poll_metadata(0), Some([7u8; 32]));
    assert_eq!(pallet.poll_ring_id(0), Some(0));
    assert!(pallet.close_poll(0).is_ok());
    assert_eq!(pallet.poll_metadata(0), None);
    assert_eq!(pallet.poll_ring_id(0), None);
}

#[test]
fn register_ring_group_shape_errors() {
    let mut pallet = new_pallet();
    let mut rng = TestRng::default();
    let (ks, decoys) = make_signer(128, 1, &mut rng);
    let (_, _, ring, _) = sign_message(&ks, &decoys, b"seed");

    // A row of the wrong width.
    let mut ragged = ring.clone();
    let repeat = ragged[17][0];
    ragged[17].push(repeat);
    assert_eq!(
        pallet.register_ring_group(ALICE, ragged),
        Err(Error::BadMetadata)
    );

    // More rows than the configured bound.
    let mut oversize = ring.clone();
    let extra = oversize[0].clone();
    oversize.push(extra);
    assert_eq!(
        pallet.register_ring_group(ALICE, oversize),
        Err(Error::BadMetadata)
    );

    assert_eq!(pallet.ring_group_count(), 0);
    assert!(pallet.register_ring_group(ALICE, ring).is_ok());
    assert_eq!(pallet.ring_group_count(), 1);
}

#[test]
fn close_poll_lifecycle_errors() {
    let mut pallet = new_pallet();
    let mut rng = TestRng::default();
    let (ks, decoys) = make_signer(128, 1, &mut rng);
    let (_, _, ring, _) = sign_message(&ks, &decoys, b"seed");
    assert!(pallet.register_ring_group(ALICE, ring).is_ok());

    assert_eq!(pallet.close_poll(3), Err(Error::PollNotFound));

    assert!(pallet
        .create_poll(ALICE, b"Poll 0".to_vec(), 0, None, true, None, true)
        .is_ok());
    assert!(pallet.close_poll(0).is_ok());
    assert_eq!(pallet.close_poll(0), Err(Error::PollAlreadyClosed));
    assert_eq!(
        pallet.close_poll_disclosing(0, [1u8; 32], (1, 1)),
        Err(Error::PollAlreadyClosed)
    );
}

#[test]
fn encrypted_vote_bounds() {
    // A pallet that stores at most one ballot per poll, with ballots of at
    // most 8 bytes.  Two signers share one four-row ring: the first
    // occupies row one, the second row zero.
    let mut pallet = Pallet::new(4, 1, 256, 8, 1, 10);
    let mut rng = TestRng::default();
    let (_, encryption_pubkey) = encryption_keys(&mut rng);

    let ephemeral_pubkey = CompressedRistrettoWrapper([2u8; 32]);
    let auth_tag = [0u8; 16];
    let ciphertext = vec![9u8, 9];

    let ks_a = vec![Scalar::random(&mut rng)];
    let ks_b = vec![Scalar::random(&mut rng)];
    let row_a: Vec<RistrettoPoint> = ks_a.iter().map(|k| k * RISTRETTO_BASEPOINT_POINT).collect();
    let row_b: Vec<RistrettoPoint> = ks_b.iter().map(|k| k * RISTRETTO_BASEPOINT_POINT).collect();
    let row_2: Vec<RistrettoPoint> = vec![RistrettoPoint::random(&mut rng)];
    let row_3: Vec<RistrettoPoint> = vec![RistrettoPoint::random(&mut rng)];
    // Signer A inserts at index one into [B, 2, 3]; signer B at index zero
    // into [A, 2, 3]; both give the ring [B, A, 2, 3].
    let decoys_a = vec![row_b.clone(), row_2.clone(), row_3.clone()];
    let decoys_b = vec![row_a.clone(), row_2.clone(), row_3.clone()];

    let message = encrypted_vote_message(0, &ephemeral_pubkey, &ciphertext, &auth_tag);
    let (challenge, responses, ring, key_images) = sign_message_at(&ks_a, &decoys_a, 1, &message);
    let (challenge_b, responses_b, ring_b, key_images_b) =
        sign_message_at(&ks_b, &decoys_b, 0, &message);
    assert_eq!(ring, ring_b);
    assert_ne!(key_images_b[0], key_images[0]);

    assert!(pallet.register_ring_group(ALICE, ring).is_ok());
    assert!(pallet
        .create_poll(
            ALICE,
            b"Poll 0".to_vec(),
            0,
            None,
            true,
            Some(encryption_pubkey),
            true,
        )
        .is_ok());

    // An over-long ciphertext is rejected at the transport bound.
    assert_eq!(
        pallet.anonymous_vote_encrypted(
            0,
            ephemeral_pubkey,
            vec![0u8; 9],
            auth_tag,
            challenge,
            responses.clone(),
            key_images.clone(),
        ),
        Err(Error::BadMetadata)
    );

    // Signer A's ballot fills the one-slot store.
    assert!(pallet
        .anonymous_vote_encrypted(
            0,
            ephemeral_pubkey,
            ciphertext.clone(),
            auth_tag,
            challenge,
            responses,
            key_images,
        )
        .is_ok());
    assert_eq!(pallet.encrypted_votes(0).unwrap().len(), 1);

    // Signer B's valid, fresh-key-image ballot finds the store full.
    assert_eq!(
        pallet.anonymous_vote_encrypted(
            0,
            ephemeral_pubkey,
            ciphertext,
            auth_tag,
            challenge_b,
            responses_b,
            key_images_b,
        ),
        Err(Error::TooManyVotes)
    );
    assert_eq!(pallet.encrypted_votes(0).unwrap().len(), 1);
}

#[test]
fn empty_ring_rejects_ballots() {
    // A ring of zero rows registers (nothing constrains it upward), but no
    // ballot can ever have its shape: the height gate demands a non-empty
    // ring.
    let mut pallet = new_pallet();
    let ring_id = pallet.register_ring_group(ALICE, Vec::new()).unwrap();
    assert!(pallet
        .create_poll(ALICE, Vec::new(), ring_id, None, true, None, true)
        .is_ok());

    assert_eq!(
        pallet.anonymous_vote(
            0,
            VoteOption::Yea,
            ScalarWrapper([0u8; 32]),
            Vec::new(),
            vec![CompressedRistrettoWrapper([0u8; 32])],
        ),
        Err(Error::BadMetadata)
    );
    assert_eq!(pallet.poll_votes(0), (0, 0));
}

#[test]
fn description_at_bound_accepted() {
    let mut pallet = new_pallet();
    let ring_id = pallet.register_ring_group(ALICE, Vec::new()).unwrap();
    let at_bound = vec![b'x'; 256];
    assert!(pallet
        .create_poll(ALICE, at_bound.clone(), ring_id, None, true, None, true)
        .is_ok());
    assert_eq!(pallet.polls(0).unwrap().description, at_bound);
    // An unknown poll still tallies zero.
    assert_eq!(pallet.poll_votes(9), (0, 0));
}

#[test]
fn clsag_envelope_verify() {
    let mut rng = TestRng::default();
    let (ks, decoys) = make_signer(4, 2, &mut rng);
    let message = b"wrapped envelope".to_vec();
    let (challenge, responses, ring, key_images) = sign_message(&ks, &decoys, &message);
    let mut envelope = CLSAGWrapper { challenge, responses, ring, key_images };

    assert_eq!(envelope.verify(&message), Some(true));
    let other = b"another message".to_vec();
    assert_eq!(envelope.verify(&other), Some(false));

    // An undecodable response is caught before the primitive is reached.
    envelope.responses[0] = ScalarWrapper([0xff; 32]);
    assert_eq!(envelope.verify(&message), None);
}

#[test]
fn plain_vote_error_cases() {
    let mut pallet = Pallet::new(4, 1, 256, 64, 1000, 10);
    let mut rng = TestRng::default();
    let (ks, decoys) = make_signer(4, 1, &mut rng);
    let message = plain_vote_message(0, &VoteOption::Yea);
    let (challenge, responses, ring, key_images) = sign_message(&ks, &decoys, &message);

    // No poll yet.
    assert_eq!(
        pallet.anonymous_vote(
            0,
            VoteOption::Yea,
            challenge,
            responses.clone(),
            key_images.clone(),
        ),
        Err(Error::PollNotFound)
    );

    assert!(pallet.register_ring_group(ALICE, ring).is_ok());
    assert!(pallet
        .create_poll(ALICE, b"Poll 0".to_vec(), 0, None, true, None, true)
        .is_ok());

    // Too few responses for the stored ring.
    let mut short = responses.clone();
    short.pop();
    assert_eq!(
        pallet.anonymous_vote(0, VoteOption::Yea, challenge, short, key_images.clone()),
        Err(Error::BadMetadata)
    );

    // A non-canonical challenge encoding.
    assert_eq!(
        pallet.anonymous_vote(
            0,
            VoteOption::Yea,
            ScalarWrapper([0xff; 32]),
            responses.clone(),
            key_images.clone(),
        ),
        Err(Error::BadMetadata)
    );

    // A canonical but wrong challenge.
    assert_eq!(
        pallet.anonymous_vote(
            0,
            VoteOption::Yea,
            ScalarWrapper([0u8; 32]),
            responses.clone(),
            key_images.clone(),
        ),
        Err(Error::InvalidSignature)
    );

    // The genuine ballot is admitted exactly once.
    assert!(pallet
        .anonymous_vote(0, VoteOption::Yea, challenge, responses.clone(), key_images.clone())
        .is_ok());
    assert!(pallet.used_key_images(0, &key_images[0]));
    assert_eq!(
        pallet.anonymous_vote(0, VoteOption::Yea, challenge, responses, key_images),
        Err(Error::AlreadyVoted)
    );
    assert_eq!(pallet.poll_votes(0), (1, 0));
}
