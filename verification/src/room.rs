use vstd::prelude::*;

use crate::crypto::sha256_of;
use crate::encoding::{clone_bytes, i64_be_bytes};

verus! {

/// How many ledger units must pass since a room's last action before a
/// timeout claim is allowed.
pub const TIMEOUT_LEDGERS: u32 = 100;

/// The largest bet the settlement arithmetic can carry: the decisive branch
/// computes the 80% share as (2 * bet) * 80 before dividing by 100, so a bet
/// may be at most a 160th of the largest signed 128-bit value.
pub const MAX_BET: i128 = 1063382396627932698323045648224275660;

/// Failure kinds of the game contract.
#[derive(Copy, Clone, Debug, PartialEq, Eq, PartialOrd, Ord, Structural)]
pub enum Error {
    RoomNotFound,
    NotPlayer,
    InvalidPhase,
    AlreadyCommitted,
    InvalidProof,
    SelfPlayForbidden,
    InvalidBet,
    TimeoutNotReached,
    AlreadyInitialized,
    InvalidHandValue,
    InvalidGuess,
    CommitmentMismatch,
    GameAlreadyStarted,
    XlmTokenNotSet,
    GameHubNotSet,
    VerifierNotSet,
    AdminNotSet,
}

/// Where a room stands in its round.
#[derive(Copy, Clone, Debug, PartialEq, Eq, Structural)]
pub enum RoomStatus {
    Lobby,
    Commit,
    Settled,
}

/// A token movement the engine commands; the escrow performs it.
#[derive(Copy, Clone, Debug, PartialEq, Eq, Structural)]
pub enum Payment {
    EscrowIn { player: u64, amount: i128 },
    PayOut { player: u64, amount: i128 },
}

/// A notification owed to the session service.
#[derive(Copy, Clone, Debug, PartialEq, Eq, Structural)]
pub enum SessionEvent {
    Started { session_id: u32, player1: u64, player2: u64, stake1: i128, stake2: i128 },
    Ended { session_id: u32, player1_won: bool },
}

/// One player slot of a room.
#[derive(Debug)]
pub struct PlayerState {
    pub address: u64,
    pub commitment: Option<Vec<u8>>,
    pub has_committed: bool,
    pub revealed_hand: Option<u32>,
    pub revealed_parity: Option<u32>,
    pub revealed_total_guess: Option<u32>,
    pub jackpot_hit: bool,
}

/// The mathematical content of a player slot.
#[verifier::ext_equal]
pub struct PlayerModel {
    pub address: u64,
    pub commitment: Option<Seq<u8>>,
    pub has_committed: bool,
    pub revealed_hand: Option<u32>,
    pub revealed_parity: Option<u32>,
    pub revealed_total_guess: Option<u32>,
    pub jackpot_hit: bool,
}

impl View for PlayerState {
    type V = PlayerModel;

    open spec fn view(&self) -> PlayerModel {
        PlayerModel {
            address: self.address,
            commitment: match self.commitment {
                Some(c) => Some(c@),
                None => None,
            },
            has_committed: self.has_committed,
            revealed_hand: self.revealed_hand,
            revealed_parity: self.revealed_parity,
            revealed_total_guess: self.revealed_total_guess,
            jackpot_hit: self.jackpot_hit,
        }
    }
}

/// A slot holding no round data yet, bound to an address.
pub open spec fn fresh_player(address: u64) -> PlayerModel {
    PlayerModel {
        address: address,
        commitment: None,
        has_committed: false,
        revealed_hand: None,
        revealed_parity: None,
        revealed_total_guess: None,
        jackpot_hit: false,
    }
}

/// A slot after a commit is recorded.
pub open spec fn committed_player(
    p: PlayerModel,
    commitment: Seq<u8>,
    hand: u32,
    parity: u32,
    total_guess: u32,
    jackpot_hit: bool,
) -> PlayerModel {
    PlayerModel {
        address: p.address,
        commitment: Some(commitment),
        has_committed: true,
        revealed_hand: Some(hand),
        revealed_parity: Some(parity),
        revealed_total_guess: Some(total_guess),
        jackpot_hit: jackpot_hit,
    }
}

/// A committed slot carries in-range revealed values; an uncommitted slot
/// carries none.
pub open spec fn player_wf(p: PlayerModel) -> bool {
    &&& p.has_committed ==> {
        &&& p.commitment is Some
        &&& p.commitment->0.len() == 32
        &&& p.revealed_hand is Some
        &&& p.revealed_hand->0 <= 5
        &&& p.revealed_parity is Some
        &&& p.revealed_parity->0 <= 1
        &&& p.revealed_total_guess is Some
        &&& p.revealed_total_guess->0 <= 10
    }
    &&& !p.has_committed ==> {
        &&& p.commitment is None
        &&& p.revealed_hand is None
        &&& p.revealed_parity is None
        &&& p.revealed_total_guess is None
        &&& !p.jackpot_hit
    }
}

impl PlayerState {
    pub fn new(address: u64) -> (r: Self)
        ensures
            r@ == fresh_player(address),
    {
        PlayerState {
            address,
            commitment: None,
            has_committed: false,
            revealed_hand: None,
            revealed_parity: None,
            revealed_total_guess: None,
            jackpot_hit: false,
        }
    }

    /// Clears the round data; the address stays.
    pub fn reset(&mut self)
        ensures
            final(self)@ == fresh_player(old(self)@.address),
    {
        self.commitment = None;
        self.has_committed = false;
        self.revealed_hand = None;
        self.revealed_parity = None;
        self.revealed_total_guess = None;
        self.jackpot_hit = false;
    }
}

impl Clone for PlayerState {
    fn clone(&self) -> (r: Self)
        ensures
            r@ == self@,
    {
        PlayerState {
            address: self.address,
            commitment: match &self.commitment {
                Some(c) => Some(clone_bytes(c)),
                None => None,
            },
            has_committed: self.has_committed,
            revealed_hand: self.revealed_hand,
            revealed_parity: self.revealed_parity,
            revealed_total_guess: self.revealed_total_guess,
            jackpot_hit: self.jackpot_hit,
        }
    }
}

/// One wagering room.
#[derive(Debug)]
pub struct Room {
    pub id: u64,
    pub player1: PlayerState,
    pub player2: PlayerState,
    pub has_player2: bool,
    pub bet_amount: i128,
    pub jackpot_pool: i128,
    pub jackpot_accumulated: i64,
    pub jackpot_accumulated_hash: Vec<u8>,
    pub last_action_ledger: u32,
    pub status: RoomStatus,
    pub session_id: u32,
    pub last_winner: Option<u64>,
    pub rounds_played: u32,
}

/// The mathematical content of a room.
#[verifier::ext_equal]
pub struct RoomModel {
    pub id: u64,
    pub player1: PlayerModel,
    pub player2: PlayerModel,
    pub has_player2: bool,
    pub bet_amount: i128,
    pub jackpot_pool: i128,
    pub jackpot_accumulated: i64,
    pub jackpot_accumulated_hash: Seq<u8>,
    pub last_action_ledger: u32,
    pub status: RoomStatus,
    pub session_id: u32,
    pub last_winner: Option<u64>,
    pub rounds_played: u32,
}

impl View for Room {
    type V = RoomModel;

    open spec fn view(&self) -> RoomModel {
        RoomModel {
            id: self.id,
            player1: self.player1@,
            player2: self.player2@,
            has_player2: self.has_player2,
            bet_amount: self.bet_amount,
            jackpot_pool: self.jackpot_pool,
            jackpot_accumulated: self.jackpot_accumulated,
            jackpot_accumulated_hash: self.jackpot_accumulated_hash@,
            last_action_ledger: self.last_action_ledger,
            status: self.status,
            session_id: self.session_id,
            last_winner: self.last_winner,
            rounds_played: self.rounds_played,
        }
    }
}

impl Clone for Room {
    fn clone(&self) -> (r: Self)
        ensures
            r@ == self@,
    {
        Room {
            id: self.id,
            player1: self.player1.clone(),
            player2: self.player2.clone(),
            has_player2: self.has_player2,
            bet_amount: self.bet_amount,
            jackpot_pool: self.jackpot_pool,
            jackpot_accumulated: self.jackpot_accumulated,
            jackpot_accumulated_hash: clone_bytes(&self.jackpot_accumulated_hash),
            last_action_ledger: self.last_action_ledger,
            status: self.status,
            session_id: self.session_id,
            last_winner: self.last_winner,
            rounds_played: self.rounds_played,
        }
    }
}

/// The room invariant: a positive bounded bet, a non-negative pool, a
/// commitment hash that always matches the accumulated counter, well-formed
/// player slots, and a status that agrees with the slots.
pub open spec fn room_wf(r: RoomModel) -> bool {
    &&& 0 < r.bet_amount <= MAX_BET
    &&& 0 <= r.jackpot_pool
    &&& 0 <= r.jackpot_accumulated
    &&& r.jackpot_accumulated_hash == sha256_of(i64_be_bytes(r.jackpot_accumulated))
    &&& player_wf(r.player1)
    &&& player_wf(r.player2)
    &&& r.has_player2 ==> r.player1.address != r.player2.address
    &&& r.status is Lobby ==> !r.has_player2 && !r.player1.has_committed
        && !r.player2.has_committed
    &&& r.status is Commit ==> r.has_player2
    &&& r.status is Settled ==> r.jackpot_pool == 0
}

/// The room as created: one bound player, an empty pool, a fresh jackpot
/// chain whose hash commits to a zero counter.
pub open spec fn created_room(id: u64, player: u64, bet: i128, now: u32) -> RoomModel {
    RoomModel {
        id: id,
        player1: fresh_player(player),
        player2: fresh_player(player),
        has_player2: false,
        bet_amount: bet,
        jackpot_pool: 0,
        jackpot_accumulated: 0,
        jackpot_accumulated_hash: sha256_of(i64_be_bytes(0)),
        last_action_ledger: now,
        status: RoomStatus::Lobby,
        session_id: id as u32,
        last_winner: None,
        rounds_played: 0,
    }
}

/// The room after a joiner binds the second slot: the round begins.
pub open spec fn joined_room(r: RoomModel, joiner: u64, now: u32) -> RoomModel {
    RoomModel {
        player2: fresh_player(joiner),
        has_player2: true,
        status: RoomStatus::Commit,
        last_action_ledger: now,
        ..r
    }
}

/// The room after one player's commit is recorded, before any settlement.
pub open spec fn committed_room(
    r: RoomModel,
    to_player1: bool,
    commitment: Seq<u8>,
    hand: u32,
    parity: u32,
    total_guess: u32,
    jackpot_hit: bool,
    now: u32,
) -> RoomModel {
    if to_player1 {
        RoomModel {
            player1: committed_player(r.player1, commitment, hand, parity, total_guess, jackpot_hit),
            last_action_ledger: now,
            ..r
        }
    } else {
        RoomModel {
            player2: committed_player(r.player2, commitment, hand, parity, total_guess, jackpot_hit),
            last_action_ledger: now,
            ..r
        }
    }
}

/// The recycle-or-settle policy: a room whose pool still holds value returns
/// to the lobby with cleared slots; an empty pool ends the room for good.
pub open spec fn recycled_room(r: RoomModel) -> RoomModel {
    if r.jackpot_pool > 0 {
        RoomModel {
            status: RoomStatus::Lobby,
            has_player2: false,
            player1: fresh_player(r.player1.address),
            player2: fresh_player(r.player2.address),
            ..r
        }
    } else {
        RoomModel { status: RoomStatus::Settled, ..r }
    }
}

/// Whether `who` holds the first slot.
pub open spec fn is_player1(r: RoomModel, who: u64) -> bool {
    who == r.player1.address
}

/// Whether `who` holds the second slot of a room that has one.
pub open spec fn is_player2(r: RoomModel, who: u64) -> bool {
    r.has_player2 && who == r.player2.address
}

/// Whether `who` is bound to the room at all.
pub open spec fn is_bound_player(r: RoomModel, who: u64) -> bool {
    is_player1(r, who) || is_player2(r, who)
}

} // verus!
