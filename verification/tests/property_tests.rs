use rand::RngExt;
use rand::SeedableRng;
use sha2::Digest;
use zk_porrinha::contract::ZkPorrinhaContract;
use zk_porrinha::gate::VerifierInterface;
use zk_porrinha::noir_verifier::NoirVerifier;
use zk_porrinha::room::{Error, Payment, RoomStatus, SessionEvent, TIMEOUT_LEDGERS};

pub struct AcceptAll;

impl VerifierInterface for AcceptAll {
    fn verify(&self, proof_bytes: &Vec<u8>, _public_inputs: &Vec<Vec<u8>>) -> bool {
        proof_bytes.len() > 0
    }
}

const PLAYER1: u64 = 10;
const PLAYER2: u64 = 20;
const STRANGER: u64 = 30;

fn setup() -> ZkPorrinhaContract {
    ZkPorrinhaContract::new(1, 2, 3, 4)
}

fn commit(
    client: &mut ZkPorrinhaContract,
    room_id: u64,
    player: u64,
    hand: u32,
    parity: u32,
    total_guess: u32,
    jackpot_hit: bool,
    now: u32,
) -> Result<(), Error> {
    client.commit_hand(
        &AcceptAll,
        room_id,
        player,
        vec![7u8; 32],
        vec![1u8; 200],
        hand,
        parity,
        total_guess,
        jackpot_hit,
        now,
    )
}

#[test]
fn test_create_join_escrows_double_bet() {
    let mut client = setup();
    let bet: i128 = 12_345;
    let room_id = client.create_room(PLAYER1, bet, 1).unwrap();
    let room = client.get_room(room_id).unwrap();
    assert_eq!(room.status, RoomStatus::Lobby);

    client.join_room(room_id, PLAYER2, 2).unwrap();
    let room = client.get_room(room_id).unwrap();
    assert_eq!(room.status, RoomStatus::Commit);

    assert_eq!(
        client.payments,
        vec![
            Payment::EscrowIn { player: PLAYER1, amount: bet },
            Payment::EscrowIn { player: PLAYER2, amount: bet },
        ]
    );
    let total: i128 = client
        .payments
        .iter()
        .map(|p| match p {
            Payment::EscrowIn { amount, .. } => *amount,
            Payment::PayOut { amount, .. } => *amount,
        })
        .sum();
    assert_eq!(total, 2 * bet);
}

#[test]
fn test_settlement_order_independent() {
    // The same revealed values, with the players committing in either
    // order, settle to the same room.
    let mut first = setup();
    let id_a = first.create_room(PLAYER1, 1_000, 1).unwrap();
    first.join_room(id_a, PLAYER2, 1).unwrap();
    commit(&mut first, id_a, PLAYER1, 1, 1, 0, false, 2).unwrap();
    commit(&mut first, id_a, PLAYER2, 2, 0, 0, false, 3).unwrap();

    let mut second = setup();
    let id_b = second.create_room(PLAYER1, 1_000, 1).unwrap();
    second.join_room(id_b, PLAYER2, 1).unwrap();
    commit(&mut second, id_b, PLAYER2, 2, 0, 0, false, 2).unwrap();
    commit(&mut second, id_b, PLAYER1, 1, 1, 0, false, 3).unwrap();

    let room_a = first.get_room(id_a).unwrap();
    let room_b = second.get_room(id_b).unwrap();
    assert_eq!(room_a.jackpot_pool, room_b.jackpot_pool);
    assert_eq!(room_a.last_winner, room_b.last_winner);
    assert_eq!(room_a.status, room_b.status);
    assert_eq!(room_a.jackpot_accumulated, room_b.jackpot_accumulated);
    assert_eq!(room_a.jackpot_accumulated_hash, room_b.jackpot_accumulated_hash);
    assert_eq!(first.payments, second.payments);
}

#[test]
fn test_draw_refunds_own_bets() {
    let mut client = setup();
    let bet: i128 = 1_000;
    let room_id = client.create_room(PLAYER1, bet, 1).unwrap();
    client.join_room(room_id, PLAYER2, 1).unwrap();
    // total = 2, parity 0; both guessed 0: both right, a draw.
    commit(&mut client, room_id, PLAYER1, 1, 0, 0, false, 1).unwrap();
    commit(&mut client, room_id, PLAYER2, 1, 0, 0, false, 1).unwrap();

    let room = client.get_room(room_id).unwrap();
    assert_eq!(room.jackpot_pool, 0);
    assert_eq!(room.last_winner, None);
    assert_eq!(room.status, RoomStatus::Settled);
    assert_eq!(
        client.payments[2..],
        [
            Payment::PayOut { player: PLAYER1, amount: bet },
            Payment::PayOut { player: PLAYER2, amount: bet },
        ]
    );
}

#[test]
fn test_simultaneous_wrong_guesses_draw() {
    let mut client = setup();
    let bet: i128 = 1_000;
    let room_id = client.create_room(PLAYER1, bet, 1).unwrap();
    client.join_room(room_id, PLAYER2, 1).unwrap();
    // total = 3, parity 1; both guessed 0: both wrong, a draw.
    commit(&mut client, room_id, PLAYER1, 1, 0, 0, false, 1).unwrap();
    commit(&mut client, room_id, PLAYER2, 2, 0, 0, false, 1).unwrap();

    let room = client.get_room(room_id).unwrap();
    assert_eq!(room.jackpot_pool, 0);
    assert_eq!(
        client.payments[2..],
        [
            Payment::PayOut { player: PLAYER1, amount: bet },
            Payment::PayOut { player: PLAYER2, amount: bet },
        ]
    );
}

#[test]
fn test_single_jackpot_payout_equals_pool() {
    let mut client = setup();
    let bet: i128 = 600;
    let room_id = client.create_room(PLAYER1, bet, 1).unwrap();
    client.join_room(room_id, PLAYER2, 1).unwrap();
    commit(&mut client, room_id, PLAYER1, 1, 1, 0, false, 1).unwrap();
    commit(&mut client, room_id, PLAYER2, 2, 0, 0, false, 1).unwrap();
    let pool_before = client.get_room(room_id).unwrap().jackpot_pool;
    assert_eq!(pool_before, 240);

    client.join_room(room_id, PLAYER2, 1).unwrap();
    commit(&mut client, room_id, PLAYER1, 3, 1, 0, true, 1).unwrap();
    commit(&mut client, room_id, PLAYER2, 4, 0, 0, false, 1).unwrap();

    // The jackpot payout is exactly the pre-settlement pool.
    assert!(client
        .payments
        .contains(&Payment::PayOut { player: PLAYER1, amount: pool_before }));
}

#[test]
fn test_scenario_parity_winner_eighty_percent() {
    // bet = 1000; player1: hand 1, parity guess 1; player2: hand 2, parity
    // guess 0. Total 3, odd, so player1 wins 80% of 2000 and the room
    // recycles with 400 in the pool.
    let mut client = setup();
    let bet: i128 = 1_000;
    let room_id = client.create_room(PLAYER1, bet, 1).unwrap();
    client.join_room(room_id, PLAYER2, 1).unwrap();
    commit(&mut client, room_id, PLAYER1, 1, 1, 0, false, 1).unwrap();
    commit(&mut client, room_id, PLAYER2, 2, 0, 0, false, 1).unwrap();

    let room = client.get_room(room_id).unwrap();
    assert_eq!(room.jackpot_pool, 400);
    assert_eq!(room.last_winner, Some(PLAYER1));
    assert_eq!(room.status, RoomStatus::Lobby);
    assert!(!room.has_player2);
    assert!(client
        .payments
        .contains(&Payment::PayOut { player: PLAYER1, amount: 1_600 }));
}

#[test]
fn test_scenario_both_hit_splits_pool() {
    // An existing pool of 160 with both players declaring a hit splits
    // 80 and 80 and the pool becomes 0.
    let mut client = setup();
    let bet: i128 = 400;
    let room_id = client.create_room(PLAYER1, bet, 1).unwrap();
    client.join_room(room_id, PLAYER2, 1).unwrap();
    commit(&mut client, room_id, PLAYER1, 1, 1, 0, false, 1).unwrap();
    commit(&mut client, room_id, PLAYER2, 2, 0, 0, false, 1).unwrap();
    assert_eq!(client.get_room(room_id).unwrap().jackpot_pool, 160);

    client.join_room(room_id, PLAYER2, 1).unwrap();
    commit(&mut client, room_id, PLAYER1, 2, 1, 0, true, 1).unwrap();
    commit(&mut client, room_id, PLAYER2, 4, 1, 0, true, 1).unwrap();

    let room = client.get_room(room_id).unwrap();
    assert_eq!(room.jackpot_pool, 0);
    let n = client.payments.len();
    assert_eq!(
        client.payments[n - 2..],
        [
            Payment::PayOut { player: PLAYER1, amount: 80 },
            Payment::PayOut { player: PLAYER2, amount: 80 },
        ]
    );
}

#[test]
fn test_scenario_empty_proof_fails_before_state_change() {
    // A zero-length proof fails the commit with InvalidProof before any
    // player state is touched, under the real structural verifier.
    let mut client = setup();
    let room_id = client.create_room(PLAYER1, 1_000, 1).unwrap();
    client.join_room(room_id, PLAYER2, 5).unwrap();
    let noir = NoirVerifier::new();
    let result = client.commit_hand(
        &noir,
        room_id,
        PLAYER1,
        vec![7u8; 32],
        Vec::new(),
        1,
        1,
        0,
        false,
        9,
    );
    assert_eq!(result, Err(Error::InvalidProof));
    let room = client.get_room(room_id).unwrap();
    assert!(!room.player1.has_committed);
    assert_eq!(room.player1.commitment, None);
    assert_eq!(room.last_action_ledger, 5);
}

#[test]
fn test_commit_through_structural_verifier() {
    // A proof with enough distinct bytes passes the real verifier inside a
    // commit.
    let mut client = setup();
    let room_id = client.create_room(PLAYER1, 1_000, 1).unwrap();
    client.join_room(room_id, PLAYER2, 1).unwrap();
    let noir = NoirVerifier::new();
    let mut proof = vec![0u8; 256];
    for i in 0..256 {
        proof[i] = ((i * 7 + 13) % 256) as u8;
    }
    client
        .commit_hand(&noir, room_id, PLAYER1, vec![7u8; 32], proof, 1, 1, 0, false, 1)
        .unwrap();
    assert!(client.get_room(room_id).unwrap().player1.has_committed);
}

#[test]
fn test_jackpot_hash_matches_accumulated() {
    // After a settlement the stored hash is the SHA-256 digest of the
    // stored counter's big-endian bytes.
    let mut client = setup();
    let room_id = client.create_room(PLAYER1, 1_000, 1).unwrap();
    client.join_room(room_id, PLAYER2, 1).unwrap();
    commit(&mut client, room_id, PLAYER1, 1, 1, 0, false, 1).unwrap();
    commit(&mut client, room_id, PLAYER2, 2, 0, 0, false, 1).unwrap();

    let room = client.get_room(room_id).unwrap();
    let expected = sha2::Sha256::digest(&room.jackpot_accumulated.to_be_bytes());
    assert_eq!(client.get_jackpot_hash(room_id).unwrap(), expected.as_slice().to_vec());
}

#[test]
fn test_fresh_room_hash_commits_to_zero() {
    let mut client = setup();
    let room_id = client.create_room(PLAYER1, 1_000, 1).unwrap();
    let expected = sha2::Sha256::digest(&0i64.to_be_bytes());
    assert_eq!(client.get_jackpot_hash(room_id).unwrap(), expected.as_slice().to_vec());
}

#[test]
fn test_jackpot_draw_is_seeded_from_round() {
    // The accumulated counter moves by the ChaCha20 draw seeded with the
    // Keccak-256 hash of room id, round counter and both hands.
    let mut client = setup();
    let room_id = client.create_room(PLAYER1, 1_000, 1).unwrap();
    client.join_room(room_id, PLAYER2, 1).unwrap();
    commit(&mut client, room_id, PLAYER1, 1, 1, 0, false, 1).unwrap();
    commit(&mut client, room_id, PLAYER2, 2, 0, 0, false, 1).unwrap();

    let mut seed_data: Vec<u8> = Vec::new();
    seed_data.extend_from_slice(&1u64.to_be_bytes());
    seed_data.extend_from_slice(&0u32.to_be_bytes());
    seed_data.extend_from_slice(&1u32.to_be_bytes());
    seed_data.extend_from_slice(&2u32.to_be_bytes());
    let digest = sha3::Keccak256::digest(&seed_data);
    let mut seed = [0u8; 32];
    seed.copy_from_slice(digest.as_slice());
    let mut rng = rand_chacha::ChaCha20Rng::from_seed(seed);
    let draw: u64 = rng.random_range(0..100u64);

    let room = client.get_room(room_id).unwrap();
    assert_eq!(room.jackpot_accumulated, draw as i64);
    assert_eq!(room.rounds_played, 1);
}

#[test]
fn test_public_input_encoding() {
    let commitment = vec![9u8; 32];
    let jackpot_hash = vec![8u8; 32];
    let inputs =
        zk_porrinha::contract::build_public_inputs(&commitment, 3, 1, 7, true, &jackpot_hash);
    assert_eq!(inputs.len(), 6);
    assert_eq!(inputs[0], commitment);
    let mut hand_field = vec![0u8; 28];
    hand_field.extend_from_slice(&3u32.to_be_bytes());
    assert_eq!(inputs[1], hand_field);
    let mut parity_field = vec![0u8; 28];
    parity_field.extend_from_slice(&1u32.to_be_bytes());
    assert_eq!(inputs[2], parity_field);
    let mut guess_field = vec![0u8; 28];
    guess_field.extend_from_slice(&7u32.to_be_bytes());
    assert_eq!(inputs[3], guess_field);
    let mut hit_field = vec![0u8; 28];
    hit_field.extend_from_slice(&1u32.to_be_bytes());
    assert_eq!(inputs[4], hit_field);
    assert_eq!(inputs[5], jackpot_hash);
}

#[test]
fn test_validation_errors() {
    let mut client = setup();
    let room_id = client.create_room(PLAYER1, 1_000, 1).unwrap();
    client.join_room(room_id, PLAYER2, 1).unwrap();

    assert_eq!(commit(&mut client, room_id, PLAYER1, 6, 0, 0, false, 1), Err(Error::InvalidHandValue));
    assert_eq!(commit(&mut client, room_id, PLAYER1, 5, 2, 0, false, 1), Err(Error::InvalidGuess));
    assert_eq!(commit(&mut client, room_id, PLAYER1, 5, 1, 11, false, 1), Err(Error::InvalidGuess));
    assert_eq!(commit(&mut client, 99, PLAYER1, 5, 1, 10, false, 1), Err(Error::RoomNotFound));
    assert_eq!(commit(&mut client, room_id, STRANGER, 5, 1, 10, false, 1), Err(Error::NotPlayer));

    assert_eq!(client.create_room(PLAYER1, 0, 1), Err(Error::InvalidBet));
    assert_eq!(client.create_room(PLAYER1, -5, 1), Err(Error::InvalidBet));
    assert_eq!(client.join_room(99, PLAYER2, 1), Err(Error::RoomNotFound));
    assert_eq!(client.join_room(room_id, STRANGER, 1), Err(Error::InvalidPhase));
    assert_eq!(client.get_room(99).err(), Some(Error::RoomNotFound));
    assert_eq!(client.get_jackpot_hash(99).err(), Some(Error::RoomNotFound));
}

#[test]
fn test_commit_before_join_is_wrong_phase() {
    let mut client = setup();
    let room_id = client.create_room(PLAYER1, 1_000, 1).unwrap();
    assert_eq!(commit(&mut client, room_id, PLAYER1, 1, 1, 0, false, 1), Err(Error::InvalidPhase));
}

#[test]
fn test_double_commit_keeps_state() {
    let mut client = setup();
    let room_id = client.create_room(PLAYER1, 1_000, 1).unwrap();
    client.join_room(room_id, PLAYER2, 1).unwrap();
    commit(&mut client, room_id, PLAYER1, 1, 1, 0, false, 7).unwrap();
    let before = client.get_room(room_id).unwrap();
    assert_eq!(
        commit(&mut client, room_id, PLAYER1, 2, 0, 5, true, 9),
        Err(Error::AlreadyCommitted)
    );
    let after = client.get_room(room_id).unwrap();
    assert_eq!(after.player1.revealed_hand, before.player1.revealed_hand);
    assert_eq!(after.player1.revealed_parity, before.player1.revealed_parity);
    assert_eq!(after.last_action_ledger, 7);
    assert!(!after.player2.has_committed);
}

#[test]
fn test_join_with_creator_always_self_play() {
    for bet in [1i128, 50, 1_000_000_000] {
        let mut client = setup();
        let room_id = client.create_room(PLAYER1, bet, 1).unwrap();
        assert_eq!(client.join_room(room_id, PLAYER1, 2), Err(Error::SelfPlayForbidden));
    }
}

#[test]
fn test_timeout_requirements() {
    let mut client = setup();
    let room_id = client.create_room(PLAYER1, 1_000, 1).unwrap();
    client.join_room(room_id, PLAYER2, 1).unwrap();
    commit(&mut client, room_id, PLAYER1, 1, 1, 0, false, 1).unwrap();

    let deadline = 1 + TIMEOUT_LEDGERS;
    // One ledger unit too early.
    assert_eq!(client.claim_timeout(room_id, PLAYER1, deadline - 1), Err(Error::TimeoutNotReached));
    // A stranger cannot claim.
    assert_eq!(client.claim_timeout(room_id, STRANGER, deadline), Err(Error::NotPlayer));
    // The player who has not committed cannot claim.
    assert_eq!(client.claim_timeout(room_id, PLAYER2, deadline), Err(Error::TimeoutNotReached));
    // An unknown room.
    assert_eq!(client.claim_timeout(99, PLAYER1, deadline), Err(Error::RoomNotFound));
    // Exactly at the deadline the committed player wins the whole pot.
    client.claim_timeout(room_id, PLAYER1, deadline).unwrap();
    assert!(client
        .payments
        .contains(&Payment::PayOut { player: PLAYER1, amount: 2_000 }));
    let room = client.get_room(room_id).unwrap();
    assert_eq!(room.last_winner, Some(PLAYER1));
    assert_eq!(room.rounds_played, 1);
    assert_eq!(room.status, RoomStatus::Settled);
}

#[test]
fn test_timeout_on_fresh_round_not_reached() {
    let mut client = setup();
    let room_id = client.create_room(PLAYER1, 1_000, 1).unwrap();
    client.join_room(room_id, PLAYER2, 1).unwrap();
    // Nobody committed: a claim far past the deadline still fails.
    assert_eq!(client.claim_timeout(room_id, PLAYER1, 10_000), Err(Error::TimeoutNotReached));
}

#[test]
fn test_settled_room_cannot_be_claimed() {
    let mut client = setup();
    let room_id = client.create_room(PLAYER1, 1_000, 1).unwrap();
    client.join_room(room_id, PLAYER2, 1).unwrap();
    commit(&mut client, room_id, PLAYER1, 1, 1, 0, false, 1).unwrap();
    client.claim_timeout(room_id, PLAYER1, 1 + TIMEOUT_LEDGERS).unwrap();
    assert_eq!(client.get_room(room_id).unwrap().status, RoomStatus::Settled);
    let payments_before = client.payments.len();
    // The settled room is terminal: a second claim wins nothing more.
    assert_eq!(
        client.claim_timeout(room_id, PLAYER1, 10_000),
        Err(Error::TimeoutNotReached)
    );
    assert_eq!(client.payments.len(), payments_before);
}

#[test]
fn test_admin_setters() {
    let mut client = setup();
    assert_eq!(client.get_admin(), Ok(1));
    client.set_admin(1, 99).unwrap();
    assert_eq!(client.get_admin(), Ok(99));
    client.set_hub(99, 42).unwrap();
    assert_eq!(client.game_hub, 42);
    client.set_verifier(99, 43).unwrap();
    assert_eq!(client.verifier_addr, 43);
}

#[test]
fn test_session_notes() {
    let mut client = setup();
    let bet: i128 = 1_000;
    let room_id = client.create_room(PLAYER1, bet, 1).unwrap();
    client.join_room(room_id, PLAYER2, 1).unwrap();
    commit(&mut client, room_id, PLAYER1, 1, 1, 0, false, 1).unwrap();
    commit(&mut client, room_id, PLAYER2, 2, 0, 0, false, 1).unwrap();
    assert_eq!(
        client.sessions,
        vec![
            SessionEvent::Started {
                session_id: 1,
                player1: PLAYER1,
                player2: PLAYER2,
                stake1: bet,
                stake2: bet,
            },
            SessionEvent::Ended { session_id: 1, player1_won: true },
        ]
    );
}

#[test]
fn test_apply_commit_follows_verdict() {
    let mut client = setup();
    let room_id = client.create_room(PLAYER1, 1_000, 1).unwrap();
    client.join_room(room_id, PLAYER2, 1).unwrap();
    // A rejected proof changes nothing.
    let rejected =
        client.apply_commit(room_id, PLAYER1, vec![7u8; 32], 1, 1, 0, false, false, 9);
    assert_eq!(rejected, Err(Error::InvalidProof));
    assert!(!client.get_room(room_id).unwrap().player1.has_committed);
    // An accepted one records the commit.
    client
        .apply_commit(room_id, PLAYER1, vec![7u8; 32], 1, 1, 0, false, true, 9)
        .unwrap();
    let room = client.get_room(room_id).unwrap();
    assert!(room.player1.has_committed);
    assert_eq!(room.last_action_ledger, 9);
}
