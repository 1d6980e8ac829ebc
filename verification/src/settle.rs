use vstd::prelude::*;

use crate::crypto::{draw_of, keccak256, keccak256_of, sha256, sha256_of};
use crate::encoding::{i64_be_bytes, i64_to_be_bytes, u32_be_bytes, u32_to_be_bytes, u64_be_bytes,
    u64_to_be_bytes};
use crate::room::{recycled_room, room_wf, Payment, Room, RoomModel, RoomStatus, SessionEvent};

verus! {

/// The revealed hand of the first player, for a room where both committed.
pub open spec fn hand1(r: RoomModel) -> u32 {
    r.player1.revealed_hand->0
}

/// The revealed hand of the second player.
pub open spec fn hand2(r: RoomModel) -> u32 {
    r.player2.revealed_hand->0
}

/// The sum of both revealed hands.
pub open spec fn total_real(r: RoomModel) -> int {
    hand1(r) + hand2(r)
}

/// The parity of the summed hands: 0 for even, 1 for odd.
pub open spec fn actual_parity(r: RoomModel) -> u32 {
    if total_real(r) % 2 == 0 {
        0u32
    } else {
        1u32
    }
}

/// Whether the first player's parity guess matches the actual parity.
pub open spec fn p1_wins_parity(r: RoomModel) -> bool {
    r.player1.revealed_parity->0 == actual_parity(r)
}

/// Whether the second player's parity guess matches the actual parity.
pub open spec fn p2_wins_parity(r: RoomModel) -> bool {
    r.player2.revealed_parity->0 == actual_parity(r)
}

/// Both right or both wrong: nobody takes the pot.
pub open spec fn is_draw(r: RoomModel) -> bool {
    p1_wins_parity(r) == p2_wins_parity(r)
}

/// The combined pot of a round: both equal bets.
pub open spec fn pot(r: RoomModel) -> int {
    2 * r.bet_amount
}

/// The decisive winner's share: 80% of the pot, rounded down.
pub open spec fn winner_share(r: RoomModel) -> int {
    pot(r) * 80 / 100
}

/// What a decisive round feeds the jackpot pool: the pot minus the winner's
/// share, so no unit is lost to rounding.
pub open spec fn jackpot_contribution(r: RoomModel) -> int {
    pot(r) - winner_share(r)
}

/// The address of the round's parity winner, for a decisive round.
pub open spec fn parity_winner_addr(r: RoomModel) -> u64 {
    if p1_wins_parity(r) {
        r.player1.address
    } else {
        r.player2.address
    }
}

/// A payout command.
pub open spec fn pay_out(player: u64, amount: int) -> Payment {
    Payment::PayOut { player: player, amount: amount as i128 }
}

/// The payouts of the parity step: a draw refunds each player's own bet; a
/// decisive round pays the winner's share.
pub open spec fn parity_payments(r: RoomModel) -> Seq<Payment> {
    if is_draw(r) {
        seq![
            pay_out(r.player1.address, r.bet_amount as int),
            pay_out(r.player2.address, r.bet_amount as int),
        ]
    } else {
        seq![pay_out(parity_winner_addr(r), winner_share(r))]
    }
}

/// The pool after the parity step: untouched on a draw, fed the 20%
/// remainder on a decisive round.
pub open spec fn pool_after_parity(r: RoomModel) -> int {
    if is_draw(r) {
        r.jackpot_pool as int
    } else {
        r.jackpot_pool + jackpot_contribution(r)
    }
}

/// Whether this settlement pays the pool out: it held value at entry and at
/// least one player declared a hit.
pub open spec fn jackpot_resolved(r: RoomModel) -> bool {
    r.jackpot_pool > 0 && (r.player1.jackpot_hit || r.player2.jackpot_hit)
}

/// The payouts of the jackpot step: a single declared hit takes the whole
/// pre-settlement pool; two hits split it, the odd unit going to the first
/// player; no hit leaves the pool alone.
pub open spec fn jackpot_payments(r: RoomModel) -> Seq<Payment> {
    let j = r.jackpot_pool as int;
    if j > 0 {
        if r.player1.jackpot_hit && !r.player2.jackpot_hit {
            seq![pay_out(r.player1.address, j)]
        } else if !r.player1.jackpot_hit && r.player2.jackpot_hit {
            seq![pay_out(r.player2.address, j)]
        } else if r.player1.jackpot_hit && r.player2.jackpot_hit {
            seq![pay_out(r.player1.address, j - j / 2), pay_out(r.player2.address, j / 2)]
        } else {
            seq![]
        }
    } else {
        seq![]
    }
}

/// The pool after the jackpot step: the paid-out pre-settlement pool leaves;
/// this round's contribution stays for the next round.
pub open spec fn pool_after_jackpot(r: RoomModel) -> int {
    pool_after_parity(r) - if jackpot_resolved(r) {
        r.jackpot_pool as int
    } else {
        0
    }
}

/// Every payment the settlement commands, in order.
pub open spec fn settle_payments(r: RoomModel) -> Seq<Payment> {
    parity_payments(r) + jackpot_payments(r)
}

/// The session service hears who won; a draw reports no winner.
pub open spec fn settle_session(r: RoomModel) -> SessionEvent {
    SessionEvent::Ended {
        session_id: r.session_id,
        player1_won: if is_draw(r) {
            false
        } else {
            p1_wins_parity(r)
        },
    }
}

/// The seed of the jackpot draw: this round's own identifiers and hidden
/// hands, so the next target is unknowable at commit time.
pub open spec fn seed_bytes(r: RoomModel) -> Seq<u8> {
    u64_be_bytes(r.id) + u32_be_bytes(r.rounds_played) + u32_be_bytes(hand1(r)) + u32_be_bytes(
        hand2(r),
    )
}

/// The number this round's settlement draws, below 100.
pub open spec fn round_draw(r: RoomModel) -> u64 {
    draw_of(keccak256_of(seed_bytes(r)))
}

/// Signed 64-bit addition that sticks at the extremes.
pub open spec fn i64_sat_add(a: i64, b: i64) -> i64 {
    if a + b > i64::MAX {
        i64::MAX
    } else if a + b < i64::MIN {
        i64::MIN
    } else {
        (a + b) as i64
    }
}

/// The accumulated jackpot counter after this round's draw.
pub open spec fn acc_after(r: RoomModel) -> i64 {
    i64_sat_add(r.jackpot_accumulated, round_draw(r) as i64)
}

/// The whole settlement of a room where both players committed: parity
/// payouts, jackpot resolution, the seeded draw and its commitment hash,
/// round bookkeeping, and the recycle-or-settle policy.
pub open spec fn settled_room(r: RoomModel) -> RoomModel {
    recycled_room(
        RoomModel {
            jackpot_pool: pool_after_jackpot(r) as i128,
            last_winner: if is_draw(r) {
                r.last_winner
            } else {
                Some(parity_winner_addr(r))
            },
            jackpot_accumulated: acc_after(r),
            jackpot_accumulated_hash: sha256_of(i64_be_bytes(acc_after(r))),
            rounds_played: (r.rounds_played + 1) as u32,
            ..r
        },
    )
}

/// Clears round data or ends the room, by whether the pool still holds value.
pub fn reset_or_close(room: &mut Room)
    ensures
        final(room)@ == recycled_room(old(room)@),
{
    if room.jackpot_pool > 0 {
        room.status = RoomStatus::Lobby;
        room.has_player2 = false;
        room.player1.reset();
        room.player2.reset();
    } else {
        room.status = RoomStatus::Settled;
    }
    proof {
        assert(room@ =~= recycled_room(old(room)@));
    }
}

/// Settles a finished round in place, appending the payments and the session
/// note it commands.
pub fn finalize_round(room: &mut Room, payments: &mut Vec<Payment>, sessions: &mut Vec<
    SessionEvent,
>)
    requires
        room_wf(old(room)@),
        old(room)@.player1.has_committed,
        old(room)@.player2.has_committed,
        old(room)@.jackpot_pool + 2 * old(room)@.bet_amount <= i128::MAX,
        old(room)@.rounds_played < u32::MAX,
    ensures
        final(room)@ == settled_room(old(room)@),
        room_wf(final(room)@),
        final(payments)@ == old(payments)@ + settle_payments(old(room)@),
        final(sessions)@ == old(sessions)@.push(settle_session(old(room)@)),
{
    let ghost r0 = old(room)@;
    let hand_1 = room.player1.revealed_hand.unwrap();
    let hand_2 = room.player2.revealed_hand.unwrap();
    let parity_1 = room.player1.revealed_parity.unwrap();
    let parity_2 = room.player2.revealed_parity.unwrap();
    let jackpot_1 = room.player1.jackpot_hit;
    let jackpot_2 = room.player2.jackpot_hit;

    let total_fingers = hand_1 + hand_2;
    let parity_real: u32 = if total_fingers % 2 == 0 {
        0
    } else {
        1
    };

    let p1_wins = parity_1 == parity_real;
    let p2_wins = parity_2 == parity_real;

    let bet = room.bet_amount;
    let total_pot = bet * 2;
    let jackpot = room.jackpot_pool;

    let p1_addr = room.player1.address;
    let p2_addr = room.player2.address;

    let draw_round = p1_wins == p2_wins;
    proof {
        assert(draw_round == is_draw(r0));
        assert(total_pot == pot(r0));
    }

    if draw_round {
        payments.push(Payment::PayOut { player: p1_addr, amount: bet });
        payments.push(Payment::PayOut { player: p2_addr, amount: bet });
        sessions.push(SessionEvent::Ended { session_id: room.session_id, player1_won: false });
    } else {
        let winner_addr = if p1_wins {
            p1_addr
        } else {
            p2_addr
        };
        assert(total_pot * 80 / 100 >= 0 && total_pot * 80 / 100 <= total_pot) by (nonlinear_arith)
            requires
                total_pot >= 0,
        ;
        let winner_share_amount = (total_pot * 80) / 100;
        let contribution = total_pot - winner_share_amount;
        payments.push(Payment::PayOut { player: winner_addr, amount: winner_share_amount });
        room.jackpot_pool = room.jackpot_pool + contribution;
        room.last_winner = Some(winner_addr);
        sessions.push(SessionEvent::Ended { session_id: room.session_id, player1_won: p1_wins });
    }
    proof {
        assert(room@.jackpot_pool == pool_after_parity(r0));
        assert(payments@ =~= old(payments)@ + parity_payments(r0));
        assert(sessions@ =~= old(sessions)@.push(settle_session(r0)));
    }

    if jackpot > 0 {
        if jackpot_1 && !jackpot_2 {
            payments.push(Payment::PayOut { player: p1_addr, amount: jackpot });
            room.jackpot_pool = room.jackpot_pool - jackpot;
        } else if !jackpot_1 && jackpot_2 {
            payments.push(Payment::PayOut { player: p2_addr, amount: jackpot });
            room.jackpot_pool = room.jackpot_pool - jackpot;
        } else if jackpot_1 && jackpot_2 {
            let half = jackpot / 2;
            let remainder = jackpot - half * 2;
            payments.push(Payment::PayOut { player: p1_addr, amount: half + remainder });
            payments.push(Payment::PayOut { player: p2_addr, amount: half });
            room.jackpot_pool = room.jackpot_pool - jackpot;
        }
    }
    proof {
        assert(room@.jackpot_pool == pool_after_jackpot(r0));
        assert(payments@ =~= old(payments)@ + settle_payments(r0));
    }

    let mut seed = u64_to_be_bytes(room.id);
    let mut rounds_bytes = u32_to_be_bytes(room.rounds_played);
    seed.append(&mut rounds_bytes);
    let mut hand1_bytes = u32_to_be_bytes(hand_1);
    seed.append(&mut hand1_bytes);
    let mut hand2_bytes = u32_to_be_bytes(hand_2);
    seed.append(&mut hand2_bytes);
    proof {
        assert(seed@ == seed_bytes(r0));
    }
    let seed_hash = keccak256(&seed);
    let jackpot_number = draw_below_100_i64(&seed_hash);
    proof {
        assert(jackpot_number == round_draw(r0) as i64);
    }
    let new_accumulated = if room.jackpot_accumulated > i64::MAX - jackpot_number {
        i64::MAX
    } else {
        room.jackpot_accumulated + jackpot_number
    };
    proof {
        assert(new_accumulated == acc_after(r0));
    }

    room.jackpot_accumulated = new_accumulated;
    let hash_input = i64_to_be_bytes(new_accumulated);
    room.jackpot_accumulated_hash = sha256(&hash_input);
    room.rounds_played = room.rounds_played + 1;

    let ghost mid = RoomModel {
        jackpot_pool: pool_after_jackpot(r0) as i128,
        last_winner: if is_draw(r0) {
            r0.last_winner
        } else {
            Some(parity_winner_addr(r0))
        },
        jackpot_accumulated: acc_after(r0),
        jackpot_accumulated_hash: sha256_of(i64_be_bytes(acc_after(r0))),
        rounds_played: (r0.rounds_played + 1) as u32,
        ..r0
    };
    proof {
        assert(room@ =~= mid);
    }
    reset_or_close(room);
    proof {
        assert(room@ == settled_room(r0));
    }
}

/// The round draw as a signed value, which it always fits.
fn draw_below_100_i64(seed_hash: &Vec<u8>) -> (r: i64)
    requires
        seed_hash@.len() == 32,
    ensures
        r == draw_of(seed_hash@) as i64,
        0 <= r < 100,
{
    let n = crate::crypto::draw_below_100(seed_hash);
    n as i64
}

} // verus!
