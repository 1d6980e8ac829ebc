use vstd::prelude::*;

use crate::crypto::sha256;
use crate::encoding::{clone_bytes, field_bytes, i64_to_be_bytes, u32_to_field_bytes};
use crate::gate::VerifierInterface;
use crate::room::{committed_room, created_room, is_bound_player, is_player1, is_player2,
    joined_room, room_wf, Error, Payment, PlayerState, Room, RoomModel, RoomStatus, SessionEvent,
    MAX_BET, TIMEOUT_LEDGERS};
use crate::settle::{finalize_round, reset_or_close, settle_payments, settle_session, settled_room};

verus! {

/// The whole contract state: the configuration set at construction, the
/// room store, and the outward effects the contract has commanded so far.
pub struct ZkPorrinhaContract {
    pub admin: u64,
    pub verifier_addr: u64,
    pub game_hub: u64,
    pub xlm_token: u64,
    pub room_counter: u64,
    pub rooms: Vec<Room>,
    pub payments: Vec<Payment>,
    pub sessions: Vec<SessionEvent>,
}

/// The mathematical content of the contract state.
#[verifier::ext_equal]
pub struct StateModel {
    pub admin: u64,
    pub verifier_addr: u64,
    pub game_hub: u64,
    pub xlm_token: u64,
    pub room_counter: u64,
    pub rooms: Seq<RoomModel>,
    pub payments: Seq<Payment>,
    pub sessions: Seq<SessionEvent>,
}

/// The room store as a sequence of room models.
pub open spec fn rooms_view(v: Seq<Room>) -> Seq<RoomModel> {
    v.map_values(|x: Room| x@)
}

/// A vector of byte vectors as a sequence of byte strings.
pub open spec fn bytes_view(v: Seq<Vec<u8>>) -> Seq<Seq<u8>> {
    v.map_values(|x: Vec<u8>| x@)
}

impl View for ZkPorrinhaContract {
    type V = StateModel;

    open spec fn view(&self) -> StateModel {
        StateModel {
            admin: self.admin,
            verifier_addr: self.verifier_addr,
            game_hub: self.game_hub,
            xlm_token: self.xlm_token,
            room_counter: self.room_counter,
            rooms: rooms_view(self.rooms@),
            payments: self.payments@,
            sessions: self.sessions@,
        }
    }
}

/// The store invariant: as many rooms as the counter says, each well formed
/// and standing at the index its id names.
pub open spec fn state_wf(s: StateModel) -> bool {
    &&& s.rooms.len() == s.room_counter
    &&& forall|i: int|
        0 <= i < s.rooms.len() ==> room_wf(#[trigger] s.rooms[i]) && s.rooms[i].id == i + 1
}

/// Whether a room with this id exists.
pub open spec fn has_room(s: StateModel, room_id: u64) -> bool {
    1 <= room_id && room_id <= s.rooms.len()
}

/// The room with this id.
pub open spec fn room_at(s: StateModel, room_id: u64) -> RoomModel {
    s.rooms[room_id - 1]
}

/// An escrow command.
pub open spec fn escrow_in(player: u64, amount: i128) -> Payment {
    Payment::EscrowIn { player: player, amount: amount }
}

/// The revealed values a commit must carry: hand of 0 to 5, a binary parity
/// guess, a sum guess of 0 to 10.
pub open spec fn commit_args_ok(hand: u32, parity: u32, total_guess: u32) -> bool {
    hand <= 5 && parity <= 1 && total_guess <= 10
}

/// Whether `who` already committed in the current round.
pub open spec fn already_committed(r: RoomModel, who: u64) -> bool {
    ||| is_player1(r, who) && r.player1.has_committed
    ||| is_player2(r, who) && r.player2.has_committed
}

/// The checks a commit passes before the proof gate is consulted.
pub open spec fn commit_local_ok(
    s: StateModel,
    room_id: u64,
    player: u64,
    hand: u32,
    parity: u32,
    total_guess: u32,
) -> bool {
    &&& commit_args_ok(hand, parity, total_guess)
    &&& has_room(s, room_id)
    &&& room_at(s, room_id).status is Commit
    &&& is_bound_player(room_at(s, room_id), player)
    &&& !already_committed(room_at(s, room_id), player)
}

/// The error a failing commit reports, in the order the checks run; a commit
/// that passes every local check can fail only at the proof gate.
pub open spec fn commit_error_of(
    s: StateModel,
    room_id: u64,
    player: u64,
    hand: u32,
    parity: u32,
    total_guess: u32,
) -> Error {
    if hand > 5 {
        Error::InvalidHandValue
    } else if parity > 1 || total_guess > 10 {
        Error::InvalidGuess
    } else if !has_room(s, room_id) {
        Error::RoomNotFound
    } else if !(room_at(s, room_id).status is Commit) {
        Error::InvalidPhase
    } else if !is_bound_player(room_at(s, room_id), player) {
        Error::NotPlayer
    } else if already_committed(room_at(s, room_id), player) {
        Error::AlreadyCommitted
    } else {
        Error::InvalidProof
    }
}

/// The contract state once an accepted commit is recorded: the room takes
/// the revealed values, and the round settles if this was the second commit.
pub open spec fn state_after_commit(
    s: StateModel,
    room_id: u64,
    player: u64,
    commitment: Seq<u8>,
    hand: u32,
    parity: u32,
    total_guess: u32,
    jackpot_hit: bool,
    now: u32,
) -> StateModel {
    let r0 = room_at(s, room_id);
    let c = committed_room(
        r0,
        is_player1(r0, player),
        commitment,
        hand,
        parity,
        total_guess,
        jackpot_hit,
        now,
    );
    if c.player1.has_committed && c.player2.has_committed {
        StateModel {
            rooms: s.rooms.update(room_id - 1, settled_room(c)),
            payments: s.payments + settle_payments(c),
            sessions: s.sessions.push(settle_session(c)),
            ..s
        }
    } else {
        StateModel { rooms: s.rooms.update(room_id - 1, c), ..s }
    }
}

/// Room for the arithmetic a settlement performs: the pool can take the
/// round's contribution and the round counter one more round.
pub open spec fn settlement_headroom(s: StateModel, room_id: u64) -> bool {
    has_room(s, room_id) ==> {
        &&& room_at(s, room_id).jackpot_pool + 2 * room_at(s, room_id).bet_amount <= i128::MAX
        &&& room_at(s, room_id).rounds_played < u32::MAX
    }
}

/// Room for one more round on the round counter.
pub open spec fn rounds_headroom(s: StateModel, room_id: u64) -> bool {
    has_room(s, room_id) ==> room_at(s, room_id).rounds_played < u32::MAX
}

/// Whether `now` stands at or past the room's timeout deadline.
pub open spec fn timeout_elapsed(r: RoomModel, now: u32) -> bool {
    now >= r.last_action_ledger + TIMEOUT_LEDGERS
}

/// A timeout claim is valid while a round is open and exactly the claimer
/// has committed.
pub open spec fn valid_timeout(r: RoomModel, claimer: u64) -> bool {
    &&& r.status is Commit
    &&& if is_player1(r, claimer) {
        r.player1.has_committed && !r.player2.has_committed
    } else {
        r.player2.has_committed && !r.player1.has_committed
    }
}

/// The room after a timeout claim: the claimer is recorded as winner, the
/// round counter advances, and the recycle-or-settle policy applies.
pub open spec fn timeout_room(r: RoomModel, claimer: u64) -> RoomModel {
    let winner = if is_player1(r, claimer) {
        r.player1.address
    } else {
        r.player2.address
    };
    crate::room::recycled_room(
        RoomModel {
            last_winner: Some(winner),
            rounds_played: (r.rounds_played + 1) as u32,
            ..r
        },
    )
}

/// The fixed-order public-input vector the proof is checked against: the
/// commitment, each revealed scalar as a 32-byte big-endian field, and the
/// room's current jackpot commitment hash. Off-system proof generators must
/// reproduce exactly this ordering and encoding.
pub open spec fn public_inputs_model(
    commitment: Seq<u8>,
    hand: u32,
    parity: u32,
    total_guess: u32,
    jackpot_hit: bool,
    jackpot_hash: Seq<u8>,
) -> Seq<Seq<u8>> {
    seq![
        commitment,
        field_bytes(hand),
        field_bytes(parity),
        field_bytes(total_guess),
        field_bytes(
            if jackpot_hit {
                1u32
            } else {
                0u32
            },
        ),
        jackpot_hash,
    ]
}

/// Builds the public-input vector of `public_inputs_model`.
pub fn build_public_inputs(
    commitment: &Vec<u8>,
    hand: u32,
    parity: u32,
    total_guess: u32,
    jackpot_hit: bool,
    jackpot_hash: &Vec<u8>,
) -> (r: Vec<Vec<u8>>)
    ensures
        bytes_view(r@) == public_inputs_model(
            commitment@,
            hand,
            parity,
            total_guess,
            jackpot_hit,
            jackpot_hash@,
        ),
{
    let mut r: Vec<Vec<u8>> = Vec::new();
    r.push(clone_bytes(commitment));
    r.push(u32_to_field_bytes(hand));
    r.push(u32_to_field_bytes(parity));
    r.push(u32_to_field_bytes(total_guess));
    r.push(
        u32_to_field_bytes(
            if jackpot_hit {
                1
            } else {
                0
            },
        ),
    );
    r.push(clone_bytes(jackpot_hash));
    proof {
        assert(bytes_view(r@) =~= public_inputs_model(
            commitment@,
            hand,
            parity,
            total_guess,
            jackpot_hit,
            jackpot_hash@,
        ));
    }
    r
}

/// The room store keeps its view when one slot is overwritten.
proof fn lemma_rooms_view_update(pre: Seq<Room>, i: int, r: Room)
    requires
        0 <= i < pre.len(),
    ensures
        rooms_view(pre.update(i, r)) =~= rooms_view(pre).update(i, r@),
{
    assert forall|j: int| 0 <= j < pre.len() implies rooms_view(pre.update(i, r))[j] == rooms_view(
        pre,
    ).update(i, r@)[j] by {
        if j != i {
            assert(pre.update(i, r)[j] == pre[j]);
        }
    }
}

/// The room store keeps its view when a room is appended.
proof fn lemma_rooms_view_push(pre: Seq<Room>, r: Room)
    ensures
        rooms_view(pre.push(r)) =~= rooms_view(pre).push(r@),
{
    assert forall|j: int| 0 <= j < pre.len() + 1 implies rooms_view(pre.push(r))[j] == rooms_view(
        pre,
    ).push(r@)[j] by {
        if j < pre.len() {
            assert(pre.push(r)[j] == pre[j]);
        } else {
            assert(pre.push(r)[j] == r);
        }
    }
}

impl ZkPorrinhaContract {
    pub open spec fn wf(self) -> bool {
        state_wf(self@)
    }

    /// Sets the configuration; the registry starts empty.
    pub fn new(admin: u64, verifier_addr: u64, game_hub: u64, xlm_token: u64) -> (r: Self)
        ensures
            r.wf(),
            r@ == (StateModel {
                admin: admin,
                verifier_addr: verifier_addr,
                game_hub: game_hub,
                xlm_token: xlm_token,
                room_counter: 0,
                rooms: Seq::empty(),
                payments: Seq::empty(),
                sessions: Seq::empty(),
            }),
    {
        let r = ZkPorrinhaContract {
            admin,
            verifier_addr,
            game_hub,
            xlm_token,
            room_counter: 0,
            rooms: Vec::new(),
            payments: Vec::new(),
            sessions: Vec::new(),
        };
        proof {
            assert(r@ =~= (StateModel {
                admin: admin,
                verifier_addr: verifier_addr,
                game_hub: game_hub,
                xlm_token: xlm_token,
                room_counter: 0,
                rooms: Seq::empty(),
                payments: Seq::empty(),
                sessions: Seq::empty(),
            }));
        }
        r
    }

    /// Opens a room: the creator escrows the bet and takes the first slot.
    pub fn create_room(&mut self, player: u64, bet_amount: i128, now: u32) -> (r: Result<
        u64,
        Error,
    >)
        requires
            old(self).wf(),
            old(self)@.room_counter < u64::MAX,
            bet_amount <= MAX_BET,
        ensures
            final(self).wf(),
            match r {
                Ok(room_id) => {
                    &&& bet_amount > 0
                    &&& room_id == old(self)@.room_counter + 1
                    &&& final(self)@ == (StateModel {
                        room_counter: room_id,
                        rooms: old(self)@.rooms.push(created_room(room_id, player, bet_amount, now)),
                        payments: old(self)@.payments.push(escrow_in(player, bet_amount)),
                        ..old(self)@
                    })
                },
                Err(e) => {
                    &&& e == Error::InvalidBet
                    &&& bet_amount <= 0
                    &&& final(self)@ == old(self)@
                },
            },
    {
        if bet_amount <= 0 {
            return Err(Error::InvalidBet);
        }
        self.payments.push(Payment::EscrowIn { player: player, amount: bet_amount });
        let counter = self.room_counter + 1;
        self.room_counter = counter;
        let zero_bytes = i64_to_be_bytes(0);
        let initial_hash = sha256(&zero_bytes);
        let room = Room {
            id: counter,
            player1: PlayerState::new(player),
            player2: PlayerState::new(player),
            has_player2: false,
            bet_amount,
            jackpot_pool: 0,
            jackpot_accumulated: 0,
            jackpot_accumulated_hash: initial_hash,
            last_action_ledger: now,
            status: RoomStatus::Lobby,
            session_id: #[verifier::truncate] (counter as u32),
            last_winner: None,
            rounds_played: 0,
        };
        proof {
            assert(room@ =~= created_room(counter, player, bet_amount, now));
            lemma_rooms_view_push(old(self).rooms@, room);
        }
        self.rooms.push(room);
        proof {
            assert(self@ =~= (StateModel {
                room_counter: counter,
                rooms: old(self)@.rooms.push(created_room(counter, player, bet_amount, now)),
                payments: old(self)@.payments.push(escrow_in(player, bet_amount)),
                ..old(self)@
            }));
            assert forall|i: int|
                0 <= i < self@.rooms.len() implies room_wf(#[trigger] self@.rooms[i])
                && self@.rooms[i].id == i + 1 by {
                if i < old(self)@.rooms.len() {
                    assert(self@.rooms[i] == old(self)@.rooms[i]);
                } else {
                    assert(self@.rooms[i] == created_room(counter, player, bet_amount, now));
                }
            }
        }
        Ok(counter)
    }

    /// Binds a joiner to the second slot: the joiner escrows the same bet,
    /// the round opens, and the session service hears of the game.
    pub fn join_room(&mut self, room_id: u64, player: u64, now: u32) -> (r: Result<(), Error>)
        requires
            old(self).wf(),
        ensures
            final(self).wf(),
            match r {
                Ok(()) => {
                    &&& has_room(old(self)@, room_id)
                    &&& room_at(old(self)@, room_id).status is Lobby
                    &&& !is_player1(room_at(old(self)@, room_id), player)
                    &&& ({
                        let r0 = room_at(old(self)@, room_id);
                        final(self)@ == (StateModel {
                            rooms: old(self)@.rooms.update(
                                room_id - 1,
                                joined_room(r0, player, now),
                            ),
                            payments: old(self)@.payments.push(escrow_in(player, r0.bet_amount)),
                            sessions: old(self)@.sessions.push(
                                SessionEvent::Started {
                                    session_id: r0.session_id,
                                    player1: r0.player1.address,
                                    player2: player,
                                    stake1: r0.bet_amount,
                                    stake2: r0.bet_amount,
                                },
                            ),
                            ..old(self)@
                        })
                    })
                },
                Err(e) => {
                    &&& final(self)@ == old(self)@
                    &&& if !has_room(old(self)@, room_id) {
                        e == Error::RoomNotFound
                    } else if !(room_at(old(self)@, room_id).status is Lobby) {
                        e == Error::InvalidPhase
                    } else {
                        is_player1(room_at(old(self)@, room_id), player) && e
                            == Error::SelfPlayForbidden
                    }
                },
            },
    {
        let room_lookup = self.load_room(room_id);
        let mut room = match room_lookup {
            Ok(room) => room,
            Err(e) => { return Err(e) },
        };
        if room.status != RoomStatus::Lobby {
            return Err(Error::InvalidPhase);
        }
        if room.player1.address == player {
            return Err(Error::SelfPlayForbidden);
        }
        self.payments.push(Payment::EscrowIn { player: player, amount: room.bet_amount });
        room.player2 = PlayerState::new(player);
        room.has_player2 = true;
        room.status = RoomStatus::Commit;
        room.last_action_ledger = now;
        self.sessions.push(
            SessionEvent::Started {
                session_id: room.session_id,
                player1: room.player1.address,
                player2: player,
                stake1: room.bet_amount,
                stake2: room.bet_amount,
            },
        );
        proof {
            assert(room@ =~= joined_room(room_at(old(self)@, room_id), player, now));
        }
        self.save_room(room_id, room);
        proof {
            let r0 = room_at(old(self)@, room_id);
            assert(self@ =~= (StateModel {
                rooms: old(self)@.rooms.update(room_id - 1, joined_room(r0, player, now)),
                payments: old(self)@.payments.push(escrow_in(player, r0.bet_amount)),
                sessions: old(self)@.sessions.push(
                    SessionEvent::Started {
                        session_id: r0.session_id,
                        player1: r0.player1.address,
                        player2: player,
                        stake1: r0.bet_amount,
                        stake2: r0.bet_amount,
                    },
                ),
                ..old(self)@
            }));
            assert forall|i: int|
                0 <= i < self@.rooms.len() implies room_wf(#[trigger] self@.rooms[i])
                && self@.rooms[i].id == i + 1 by {
                if i != room_id - 1 {
                    assert(self@.rooms[i] == old(self)@.rooms[i]);
                }
            }
        }
        Ok(())
    }

    /// Accepts one player's commitment, revealed values and proof. The
    /// revealed values are validated and the proof gate consulted before any
    /// state changes; a rejection leaves the contract untouched. The second
    /// accepted commit settles the round before returning.
    pub fn commit_hand<V: VerifierInterface>(
        &mut self,
        gate: &V,
        room_id: u64,
        player: u64,
        commitment: Vec<u8>,
        proof_bytes: Vec<u8>,
        hand: u32,
        parity: u32,
        total_guess: u32,
        jackpot_hit: bool,
        now: u32,
    ) -> (r: Result<(), Error>)
        requires
            old(self).wf(),
            commitment@.len() == 32,
            settlement_headroom(old(self)@, room_id),
        ensures
            final(self).wf(),
            match r {
                Ok(()) => {
                    &&& commit_local_ok(old(self)@, room_id, player, hand, parity, total_guess)
                    &&& final(self)@ == state_after_commit(
                        old(self)@,
                        room_id,
                        player,
                        commitment@,
                        hand,
                        parity,
                        total_guess,
                        jackpot_hit,
                        now,
                    )
                },
                Err(e) => {
                    &&& final(self)@ == old(self)@
                    &&& e == commit_error_of(old(self)@, room_id, player, hand, parity, total_guess)
                },
            },
    {
        if hand > 5 {
            return Err(Error::InvalidHandValue);
        }
        if parity > 1 {
            return Err(Error::InvalidGuess);
        }
        if total_guess > 10 {
            return Err(Error::InvalidGuess);
        }
        let room_lookup = self.load_room(room_id);
        let mut room = match room_lookup {
            Ok(room) => room,
            Err(e) => { return Err(e) },
        };
        if room.status != RoomStatus::Commit {
            return Err(Error::InvalidPhase);
        }
        let (is_p1, is_p2) = Self::identify_player(&room, player);
        if !is_p1 && !is_p2 {
            return Err(Error::NotPlayer);
        }
        if is_p1 && room.player1.has_committed {
            return Err(Error::AlreadyCommitted);
        }
        if is_p2 && room.player2.has_committed {
            return Err(Error::AlreadyCommitted);
        }
        let public_inputs = build_public_inputs(
            &commitment,
            hand,
            parity,
            total_guess,
            jackpot_hit,
            &room.jackpot_accumulated_hash,
        );
        let accepted = gate.verify(&proof_bytes, &public_inputs);
        self.apply_commit(
            room_id,
            player,
            commitment,
            hand,
            parity,
            total_guess,
            jackpot_hit,
            accepted,
            now,
        )
    }

    /// Records a commit whose proof-gate decision is already known, with
    /// the exact outcome for either decision. `commit_hand` consults the
    /// gate and passes its answer here; a caller that has examined a proof
    /// by other means can apply it directly.
    pub fn apply_commit(
        &mut self,
        room_id: u64,
        player: u64,
        commitment: Vec<u8>,
        hand: u32,
        parity: u32,
        total_guess: u32,
        jackpot_hit: bool,
        accepted: bool,
        now: u32,
    ) -> (r: Result<(), Error>)
        requires
            old(self).wf(),
            commitment@.len() == 32,
            settlement_headroom(old(self)@, room_id),
        ensures
            final(self).wf(),
            r is Ok <==> (commit_local_ok(old(self)@, room_id, player, hand, parity, total_guess)
                && accepted),
            match r {
                Ok(()) => final(self)@ == state_after_commit(
                    old(self)@,
                    room_id,
                    player,
                    commitment@,
                    hand,
                    parity,
                    total_guess,
                    jackpot_hit,
                    now,
                ),
                Err(e) => {
                    &&& final(self)@ == old(self)@
                    &&& e == if !commit_local_ok(
                        old(self)@,
                        room_id,
                        player,
                        hand,
                        parity,
                        total_guess,
                    ) {
                        commit_error_of(old(self)@, room_id, player, hand, parity, total_guess)
                    } else {
                        Error::InvalidProof
                    }
                },
            },
    {
        if hand > 5 {
            return Err(Error::InvalidHandValue);
        }
        if parity > 1 {
            return Err(Error::InvalidGuess);
        }
        if total_guess > 10 {
            return Err(Error::InvalidGuess);
        }
        let room_lookup = self.load_room(room_id);
        let mut room = match room_lookup {
            Ok(room) => room,
            Err(e) => { return Err(e) },
        };
        if room.status != RoomStatus::Commit {
            return Err(Error::InvalidPhase);
        }
        let (is_p1, is_p2) = Self::identify_player(&room, player);
        if !is_p1 && !is_p2 {
            return Err(Error::NotPlayer);
        }
        if is_p1 && room.player1.has_committed {
            return Err(Error::AlreadyCommitted);
        }
        if is_p2 && room.player2.has_committed {
            return Err(Error::AlreadyCommitted);
        }
        if !accepted {
            return Err(Error::InvalidProof);
        }
        let ghost commitment_bytes = commitment@;
        let ghost r0 = room_at(old(self)@, room_id);
        if is_p1 {
            room.player1.commitment = Some(commitment);
            room.player1.has_committed = true;
            room.player1.revealed_hand = Some(hand);
            room.player1.revealed_parity = Some(parity);
            room.player1.revealed_total_guess = Some(total_guess);
            room.player1.jackpot_hit = jackpot_hit;
        } else {
            room.player2.commitment = Some(commitment);
            room.player2.has_committed = true;
            room.player2.revealed_hand = Some(hand);
            room.player2.revealed_parity = Some(parity);
            room.player2.revealed_total_guess = Some(total_guess);
            room.player2.jackpot_hit = jackpot_hit;
        }
        room.last_action_ledger = now;
        proof {
            assert(room@ =~= committed_room(
                r0,
                is_p1,
                commitment_bytes,
                hand,
                parity,
                total_guess,
                jackpot_hit,
                now,
            ));
        }
        let ghost c = committed_room(
            r0,
            is_p1,
            commitment_bytes,
            hand,
            parity,
            total_guess,
            jackpot_hit,
            now,
        );
        if room.player1.has_committed && room.player2.has_committed {
            finalize_round(&mut room, &mut self.payments, &mut self.sessions);
            proof {
                assert(room@ == settled_room(c));
            }
        }
        self.save_room(room_id, room);
        proof {
            assert(self@ =~= state_after_commit(
                old(self)@,
                room_id,
                player,
                commitment_bytes,
                hand,
                parity,
                total_guess,
                jackpot_hit,
                now,
            ));
            assert forall|i: int|
                0 <= i < self@.rooms.len() implies room_wf(#[trigger] self@.rooms[i])
                && self@.rooms[i].id == i + 1 by {
                if i != room_id - 1 {
                    assert(self@.rooms[i] == old(self)@.rooms[i]);
                }
            }
        }
        Ok(())
    }

    /// Awards the whole pot to a committed claimer whose opponent stalled
    /// past the deadline.
    pub fn claim_timeout(&mut self, room_id: u64, claimer: u64, now: u32) -> (r: Result<(), Error>)
        requires
            old(self).wf(),
            rounds_headroom(old(self)@, room_id),
        ensures
            final(self).wf(),
            match r {
                Ok(()) => {
                    &&& has_room(old(self)@, room_id)
                    &&& ({
                        let r0 = room_at(old(self)@, room_id);
                        &&& timeout_elapsed(r0, now)
                        &&& is_bound_player(r0, claimer)
                        &&& valid_timeout(r0, claimer)
                        &&& final(self)@ == (StateModel {
                            rooms: old(self)@.rooms.update(room_id - 1, timeout_room(r0, claimer)),
                            payments: old(self)@.payments.push(
                                Payment::PayOut {
                                    player: claimer,
                                    amount: (2 * r0.bet_amount) as i128,
                                },
                            ),
                            sessions: old(self)@.sessions.push(
                                SessionEvent::Ended {
                                    session_id: r0.session_id,
                                    player1_won: is_player1(r0, claimer),
                                },
                            ),
                            ..old(self)@
                        })
                    })
                },
                Err(e) => {
                    &&& final(self)@ == old(self)@
                    &&& if !has_room(old(self)@, room_id) {
                        e == Error::RoomNotFound
                    } else if !timeout_elapsed(room_at(old(self)@, room_id), now) {
                        e == Error::TimeoutNotReached
                    } else if !is_bound_player(room_at(old(self)@, room_id), claimer) {
                        e == Error::NotPlayer
                    } else {
                        !valid_timeout(room_at(old(self)@, room_id), claimer) && e
                            == Error::TimeoutNotReached
                    }
                },
            },
    {
        let room_lookup = self.load_room(room_id);
        let mut room = match room_lookup {
            Ok(room) => room,
            Err(e) => { return Err(e) },
        };
        if (now as u64) < (room.last_action_ledger as u64) + (TIMEOUT_LEDGERS as u64) {
            return Err(Error::TimeoutNotReached);
        }
        let (is_p1, is_p2) = Self::identify_player(&room, claimer);
        if !is_p1 && !is_p2 {
            return Err(Error::NotPlayer);
        }
        let in_commit = room.status == RoomStatus::Commit;
        let valid = in_commit && (if is_p1 {
            room.player1.has_committed && !room.player2.has_committed
        } else {
            room.player2.has_committed && !room.player1.has_committed
        });
        if !valid {
            return Err(Error::TimeoutNotReached);
        }
        let winner = if is_p1 {
            room.player1.address
        } else {
            room.player2.address
        };
        self.payments.push(Payment::PayOut { player: winner, amount: room.bet_amount * 2 });
        self.sessions.push(
            SessionEvent::Ended { session_id: room.session_id, player1_won: is_p1 },
        );
        room.last_winner = Some(winner);
        room.rounds_played = room.rounds_played + 1;
        reset_or_close(&mut room);
        proof {
            assert(room@ =~= timeout_room(room_at(old(self)@, room_id), claimer));
        }
        self.save_room(room_id, room);
        proof {
            let r0 = room_at(old(self)@, room_id);
            assert(self@ =~= (StateModel {
                rooms: old(self)@.rooms.update(room_id - 1, timeout_room(r0, claimer)),
                payments: old(self)@.payments.push(
                    Payment::PayOut { player: claimer, amount: (2 * r0.bet_amount) as i128 },
                ),
                sessions: old(self)@.sessions.push(
                    SessionEvent::Ended {
                        session_id: r0.session_id,
                        player1_won: is_player1(r0, claimer),
                    },
                ),
                ..old(self)@
            }));
            assert forall|i: int|
                0 <= i < self@.rooms.len() implies room_wf(#[trigger] self@.rooms[i])
                && self@.rooms[i].id == i + 1 by {
                if i != room_id - 1 {
                    assert(self@.rooms[i] == old(self)@.rooms[i]);
                }
            }
        }
        Ok(())
    }

    /// A copy of the room with this id.
    pub fn get_room(&self, room_id: u64) -> (r: Result<Room, Error>)
        requires
            self.wf(),
        ensures
            match r {
                Ok(room) => has_room(self@, room_id) && room@ == room_at(self@, room_id),
                Err(e) => e == Error::RoomNotFound && !has_room(self@, room_id),
            },
    {
        self.load_room(room_id)
    }

    /// The jackpot commitment hash of the room with this id.
    pub fn get_jackpot_hash(&self, room_id: u64) -> (r: Result<Vec<u8>, Error>)
        requires
            self.wf(),
        ensures
            match r {
                Ok(h) => has_room(self@, room_id) && h@ == room_at(
                    self@,
                    room_id,
                ).jackpot_accumulated_hash,
                Err(e) => e == Error::RoomNotFound && !has_room(self@, room_id),
            },
    {
        let room_lookup = self.load_room(room_id);
        match room_lookup {
            Ok(room) => Ok(room.jackpot_accumulated_hash),
            Err(e) => Err(e),
        }
    }

    /// How many rooms were ever created.
    pub fn get_room_count(&self) -> (r: u64)
        ensures
            r == self@.room_counter,
    {
        self.room_counter
    }

    /// The configured admin identity.
    pub fn get_admin(&self) -> (r: Result<u64, Error>)
        ensures
            r == Ok::<u64, Error>(self@.admin),
    {
        Ok(self.admin)
    }

    /// Hands the admin role on; only the admin may call.
    pub fn set_admin(&mut self, caller: u64, new_admin: u64) -> (r: Result<(), Error>)
        requires
            old(self).wf(),
            caller == old(self)@.admin,
        ensures
            final(self).wf(),
            r is Ok,
            final(self)@ == (StateModel { admin: new_admin, ..old(self)@ }),
    {
        self.admin = new_admin;
        proof {
            assert(self@ =~= (StateModel { admin: new_admin, ..old(self)@ }));
        }
        Ok(())
    }

    /// Points the contract at another session hub; only the admin may call.
    pub fn set_hub(&mut self, caller: u64, new_hub: u64) -> (r: Result<(), Error>)
        requires
            old(self).wf(),
            caller == old(self)@.admin,
        ensures
            final(self).wf(),
            r is Ok,
            final(self)@ == (StateModel { game_hub: new_hub, ..old(self)@ }),
    {
        self.game_hub = new_hub;
        proof {
            assert(self@ =~= (StateModel { game_hub: new_hub, ..old(self)@ }));
        }
        Ok(())
    }

    /// Points the contract at another proof verifier; only the admin may
    /// call.
    pub fn set_verifier(&mut self, caller: u64, new_verifier: u64) -> (r: Result<(), Error>)
        requires
            old(self).wf(),
            caller == old(self)@.admin,
        ensures
            final(self).wf(),
            r is Ok,
            final(self)@ == (StateModel { verifier_addr: new_verifier, ..old(self)@ }),
    {
        self.verifier_addr = new_verifier;
        proof {
            assert(self@ =~= (StateModel { verifier_addr: new_verifier, ..old(self)@ }));
        }
        Ok(())
    }

    fn identify_player(room: &Room, player: u64) -> (r: (bool, bool))
        ensures
            r.0 == is_player1(room@, player),
            r.1 == is_player2(room@, player),
    {
        let is_p1 = player == room.player1.address;
        let is_p2 = room.has_player2 && player == room.player2.address;
        (is_p1, is_p2)
    }

    fn load_room(&self, room_id: u64) -> (r: Result<Room, Error>)
        requires
            self.wf(),
        ensures
            match r {
                Ok(room) => has_room(self@, room_id) && room@ == room_at(self@, room_id),
                Err(e) => e == Error::RoomNotFound && !has_room(self@, room_id),
            },
    {
        if room_id == 0 || room_id > self.rooms.len() as u64 {
            return Err(Error::RoomNotFound);
        }
        let idx = (room_id - 1) as usize;
        let room = self.rooms[idx].clone();
        proof {
            assert(self@.rooms[room_id - 1] == self.rooms@[idx as int]@);
        }
        Ok(room)
    }

    fn save_room(&mut self, room_id: u64, room: Room)
        requires
            1 <= room_id,
            room_id <= old(self)@.rooms.len(),
        ensures
            final(self)@ == (StateModel {
                rooms: old(self)@.rooms.update(room_id - 1, room@),
                ..old(self)@
            }),
    {
        let idx = (room_id - 1) as usize;
        proof {
            lemma_rooms_view_update(self.rooms@, idx as int, room);
        }
        self.rooms.set(idx, room);
        proof {
            assert(self@ =~= (StateModel {
                rooms: old(self)@.rooms.update(room_id - 1, room@),
                ..old(self)@
            }));
        }
    }
}

} // verus!
