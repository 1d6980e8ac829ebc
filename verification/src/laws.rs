use vstd::prelude::*;

use crate::contract::escrow_in;
use crate::crypto::sha256_of;
use crate::encoding::i64_be_bytes;
use crate::room::{committed_room, created_room, joined_room, Payment, RoomModel};
use crate::settle::{is_draw, jackpot_payments, parity_payments, pay_out, pool_after_parity,
    settle_payments, settled_room};

verus! {

/// What a payment command moves.
pub open spec fn payment_amount(p: Payment) -> int {
    match p {
        Payment::EscrowIn { player: _, amount } => amount as int,
        Payment::PayOut { player: _, amount } => amount as int,
    }
}

/// The sum moved by a series of payment commands.
pub open spec fn payments_total(ps: Seq<Payment>) -> int
    decreases ps.len(),
{
    if ps.len() == 0 {
        0
    } else {
        payment_amount(ps[0]) + payments_total(ps.drop_first())
    }
}

/// Creating a room and having a distinct player join it moves the room from
/// Lobby to Commit, and the two escrow commands together stake twice the
/// bet.
pub proof fn lemma_create_join_escrows(
    room_id: u64,
    creator: u64,
    joiner: u64,
    bet: i128,
    t0: u32,
    t1: u32,
)
    requires
        0 < bet,
        joiner != creator,
    ensures
        ({
            let r0 = created_room(room_id, creator, bet, t0);
            let r1 = joined_room(r0, joiner, t1);
            &&& r0.status is Lobby
            &&& r1.status is Commit
            &&& r1.player1.address == creator
            &&& r1.player2.address == joiner
            &&& payments_total(
                seq![escrow_in(creator, bet), escrow_in(joiner, r1.bet_amount)],
            ) == 2 * bet
        }),
{
    let r0 = created_room(room_id, creator, bet, t0);
    let r1 = joined_room(r0, joiner, t1);
    let escrows = seq![escrow_in(creator, bet), escrow_in(joiner, r1.bet_amount)];
    assert(payments_total(Seq::<Payment>::empty()) == 0);
    assert(escrows.drop_first() =~= seq![escrow_in(joiner, r1.bet_amount)]);
    assert(escrows.drop_first().drop_first() =~= Seq::<Payment>::empty());
    assert(payments_total(escrows.drop_first()) == payment_amount(escrows.drop_first()[0])
        + payments_total(escrows.drop_first().drop_first()));
    assert(payments_total(escrows) == 2 * bet);
}

/// Settlement is commit-order-independent: for the same revealed values,
/// whichever player commits first, the settled rooms carry the same parity
/// outcome, jackpot pool, winner, accumulated counter, commitment hash and
/// round count, and command the same payments; when the two orders close
/// the round at the same ledger time the rooms are equal outright.
pub proof fn lemma_commit_order_independent(
    r: RoomModel,
    commitment1: Seq<u8>,
    hand1: u32,
    parity1: u32,
    guess1: u32,
    hit1: bool,
    commitment2: Seq<u8>,
    hand2: u32,
    parity2: u32,
    guess2: u32,
    hit2: bool,
    ta: u32,
    tb: u32,
    tc: u32,
    td: u32,
)
    ensures
        ({
            let p1_first = committed_room(
                committed_room(r, true, commitment1, hand1, parity1, guess1, hit1, ta),
                false,
                commitment2,
                hand2,
                parity2,
                guess2,
                hit2,
                tc,
            );
            let p2_first = committed_room(
                committed_room(r, false, commitment2, hand2, parity2, guess2, hit2, tb),
                true,
                commitment1,
                hand1,
                parity1,
                guess1,
                hit1,
                td,
            );
            &&& settled_room(p1_first).jackpot_pool == settled_room(p2_first).jackpot_pool
            &&& settled_room(p1_first).last_winner == settled_room(p2_first).last_winner
            &&& settled_room(p1_first).status == settled_room(p2_first).status
            &&& settled_room(p1_first).jackpot_accumulated == settled_room(
                p2_first,
            ).jackpot_accumulated
            &&& settled_room(p1_first).jackpot_accumulated_hash == settled_room(
                p2_first,
            ).jackpot_accumulated_hash
            &&& settled_room(p1_first).rounds_played == settled_room(p2_first).rounds_played
            &&& settle_payments(p1_first) == settle_payments(p2_first)
            &&& tc == td ==> p1_first == p2_first && settled_room(p1_first) == settled_room(
                p2_first,
            )
        }),
{
    let p1_first = committed_room(
        committed_room(r, true, commitment1, hand1, parity1, guess1, hit1, ta),
        false,
        commitment2,
        hand2,
        parity2,
        guess2,
        hit2,
        tc,
    );
    let p2_first = committed_room(
        committed_room(r, false, commitment2, hand2, parity2, guess2, hit2, tb),
        true,
        commitment1,
        hand1,
        parity1,
        guess1,
        hit1,
        td,
    );
    assert(p1_first =~= (RoomModel { last_action_ledger: tc, ..p2_first }));
    assert(settle_payments(p1_first) =~= settle_payments(p2_first));
    if tc == td {
        assert(p1_first =~= p2_first);
    }
}

/// Draw invariant: when both parity guesses are right or both are wrong,
/// each player is refunded exactly their own bet and the parity step leaves
/// the jackpot pool untouched.
pub proof fn lemma_draw_refunds(r: RoomModel)
    requires
        is_draw(r),
    ensures
        parity_payments(r) == seq![
            pay_out(r.player1.address, r.bet_amount as int),
            pay_out(r.player2.address, r.bet_amount as int),
        ],
        pool_after_parity(r) == r.jackpot_pool,
{
}

/// Jackpot conservation: the jackpot step never pays out more than the
/// pre-settlement pool, and a both-hit split pays it out exactly.
pub proof fn lemma_jackpot_conservation(r: RoomModel)
    requires
        0 <= r.jackpot_pool,
    ensures
        payments_total(jackpot_payments(r)) <= r.jackpot_pool,
        r.jackpot_pool > 0 && (r.player1.jackpot_hit || r.player2.jackpot_hit)
            ==> payments_total(jackpot_payments(r)) == r.jackpot_pool,
{
    let ps = jackpot_payments(r);
    let j = r.jackpot_pool as int;
    if j > 0 {
        assert(payments_total(Seq::<Payment>::empty()) == 0);
        if r.player1.jackpot_hit && !r.player2.jackpot_hit {
            assert(ps.drop_first() =~= Seq::<Payment>::empty());
            assert(payments_total(ps) == j);
        } else if !r.player1.jackpot_hit && r.player2.jackpot_hit {
            assert(ps.drop_first() =~= Seq::<Payment>::empty());
            assert(payments_total(ps) == j);
        } else if r.player1.jackpot_hit && r.player2.jackpot_hit {
            assert(ps.drop_first() =~= seq![pay_out(r.player2.address, j / 2)]);
            assert(ps.drop_first().drop_first() =~= Seq::<Payment>::empty());
            assert(payments_total(ps.drop_first()) == payment_amount(ps.drop_first()[0])
                + payments_total(ps.drop_first().drop_first()));
            assert(0 <= j / 2 <= j);
            assert(payments_total(ps) == (j - j / 2) + j / 2);
        } else {
            assert(payments_total(ps) == 0);
        }
    } else {
        assert(payments_total(ps) == 0);
    }
}

/// The jackpot commitment chain: right after any settlement, the stored
/// hash is the hash of the stored accumulated counter.
pub proof fn lemma_settlement_hash_commitment(r: RoomModel)
    ensures
        settled_room(r).jackpot_accumulated_hash == sha256_of(
            i64_be_bytes(settled_room(r).jackpot_accumulated),
        ),
{
}

} // verus!
