//! What holds of the lottery whatever is asked of it, stated over the values
//! that the contracts of the operations speak of.

use crate::draw::chacha20_first_u64;
use crate::draw::selected_ticket;
use crate::draw::SEED_LENGTH;
use crate::registry::ConfView;
use crate::round::LotteryView;
use crate::tally::batch;
use crate::tally::count_of;
use crate::tally::lemma_count_batch;
use crate::types::ConfState;
use crate::types::LotteryError;
use crate::types::LotteryState;
use vstd::prelude::*;

verus! {

/// A purchase of no ticket is turned down with `InvalidTicketCount`, whatever
/// the round and the time; in an `Active` round whose sale window has not
/// passed every other purchase is accepted.
pub proof fn lemma_purchase_answer(round: LotteryView, count: u32, now: u64)
    ensures
        count == 0 ==> round.purchase_guard(count, now) == Err::<(), LotteryError>(
            LotteryError::InvalidTicketCount,
        ),
        count > 0 && round.state == LotteryState::Active && now <= round.end_time
            ==> round.purchase_guard(count, now) is Ok,
        round.purchase_guard(count, now) is Ok ==> count > 0,
{
}

/// Purchases add up: a purchase adds its size to what the buyer holds and to
/// the tickets sold, and changes what nobody else holds.
pub proof fn lemma_purchase_adds(round: LotteryView, buyer: Seq<u8>, count: u32, player: Seq<u8>)
    ensures
        round.after_purchase(buyer, count).tickets.len() == round.tickets.len() + count,
        count_of(round.after_purchase(buyer, count).tickets, buyer) == count_of(
            round.tickets,
            buyer,
        ) + count,
        player != buyer ==> count_of(round.after_purchase(buyer, count).tickets, player)
            == count_of(round.tickets, player),
        forall|k: int|
            0 <= k < round.tickets.len() ==> round.after_purchase(buyer, count).tickets[k]
                == round.tickets[k],
        forall|k: int|
            round.tickets.len() <= k < round.tickets.len() + count ==> round.after_purchase(
                buyer,
                count,
            ).tickets[k] == buyer,
{
    lemma_count_batch(round.tickets, buyer, count as nat, buyer);
    lemma_count_batch(round.tickets, buyer, count as nat, player);
}

/// Two purchases of one buyer leave the buyer with the sum of both on top of
/// what the buyer held.
pub proof fn lemma_two_purchases(round: LotteryView, buyer: Seq<u8>, first: u32, second: u32)
    ensures
        count_of(
            round.after_purchase(buyer, first).after_purchase(buyer, second).tickets,
            buyer,
        ) == count_of(round.tickets, buyer) + first + second,
{
    lemma_purchase_adds(round, buyer, first, buyer);
    lemma_purchase_adds(round.after_purchase(buyer, first), buyer, second, buyer);
}

/// A purchase keeps a round valid as long as its tickets can be numbered, and
/// leaves it `Active`.
pub proof fn lemma_purchase_keeps_valid(round: LotteryView, buyer: Seq<u8>, count: u32, now: u64)
    requires
        round.valid(),
        round.purchase_guard(count, now) is Ok,
        round.tickets.len() + count <= u32::MAX,
    ensures
        round.after_purchase(buyer, count).valid(),
        round.after_purchase(buyer, count).state == LotteryState::Active,
{
}

/// A draw that is accepted puts the winning ticket among the tickets sold and
/// the round into `Payout`, and changes nothing else.
pub proof fn lemma_draw_in_range(round: LotteryView, seed: Seq<u8>, now: u64)
    requires
        round.valid(),
        round.draw_guard(seed.len(), now) is Ok,
    ensures
        round.after_draw(chacha20_first_u64(seed)).valid(),
        round.after_draw(chacha20_first_u64(seed)).state == LotteryState::Payout,
        round.after_draw(chacha20_first_u64(seed)).winning_ticket < round.tickets.len(),
        round.after_draw(chacha20_first_u64(seed)).tickets == round.tickets,
{
    let word = chacha20_first_u64(seed);
    let tickets = round.tickets.len() as u32;
    assert(0 <= selected_ticket(word, tickets) < tickets);
}

/// After a draw was accepted, no later draw on the round is: it is turned down
/// with `InvalidState`, whatever its seed.
pub proof fn lemma_second_draw_refused(
    round: LotteryView,
    seed: Seq<u8>,
    now: u64,
    again: Seq<u8>,
    later: u64,
)
    requires
        round.draw_guard(seed.len(), now) is Ok,
        now <= later,
    ensures
        round.after_draw(chacha20_first_u64(seed)).draw_guard(again.len(), later) == Err::<
            (),
            LotteryError,
        >(LotteryError::InvalidState),
{
}

/// The draw is a function of the seed and of the number of tickets: two rounds
/// with as many tickets draw the same ticket from the same seed.
pub proof fn lemma_draw_deterministic(one: LotteryView, other: LotteryView, seed: Seq<u8>)
    requires
        one.tickets.len() == other.tickets.len(),
    ensures
        one.after_draw(chacha20_first_u64(seed)).winning_ticket == other.after_draw(
            chacha20_first_u64(seed),
        ).winning_ticket,
{
}

/// In a round in `Payout`, a claim by anybody but the owner of the winning
/// ticket is turned down with `NotWinner`; the claim of the owner is accepted,
/// closes the round and makes the owner its winner.
pub proof fn lemma_claim_answer(round: LotteryView, claimant: Seq<u8>)
    requires
        round.valid(),
        round.state == LotteryState::Payout,
    ensures
        claimant != round.tickets[round.winning_ticket as int] ==> round.claim_guard(claimant)
            == Err::<(), LotteryError>(LotteryError::NotWinner),
        claimant == round.tickets[round.winning_ticket as int] ==> {
            &&& round.claim_guard(claimant) is Ok
            &&& round.after_claim(claimant).state == LotteryState::Closed
            &&& round.after_claim(claimant).winner == claimant
            &&& round.after_claim(claimant).valid()
        },
{
}

/// A closed round stays as it is: it takes no purchase, no draw and no claim.
pub proof fn lemma_closed_is_final(
    round: LotteryView,
    buyer: Seq<u8>,
    count: u32,
    seed: Seq<u8>,
    now: u64,
)
    requires
        round.state == LotteryState::Closed,
    ensures
        round.purchase_guard(count, now) is Err,
        round.draw_guard(seed.len(), now) is Err,
        round.claim_guard(buyer) == Err::<(), LotteryError>(LotteryError::InvalidState),
{
}

/// The pool after `purchases` purchases of `count` tickets each.
pub open spec fn after_purchases(conf: ConfView, purchases: nat, count: nat) -> ConfView
    decreases purchases,
{
    if purchases == 0 {
        conf
    } else {
        after_purchases(conf, (purchases - 1) as nat, count).after_credit(conf.quote(count))
    }
}

/// After `purchases` purchases of `count` tickets each, the pool has grown by
/// `purchases * count * ticket_price`, and nothing else has changed.
pub proof fn lemma_pool_after_purchases(conf: ConfView, purchases: nat, count: nat)
    ensures
        after_purchases(conf, purchases, count) == (ConfView {
            lottery_pool: conf.lottery_pool + purchases * count * conf.ticket_price,
            ..conf
        }),
    decreases purchases,
{
    let price = conf.ticket_price;
    if purchases == 0 {
        assert(purchases * count * price == 0) by (nonlinear_arith)
            requires
                purchases == 0,
        ;
    } else {
        let fewer = (purchases - 1) as nat;
        lemma_pool_after_purchases(conf, fewer, count);
        assert(fewer * count * price + price * count == purchases * count * price)
            by (nonlinear_arith)
            requires
                fewer + 1 == purchases,
        ;
    }
}

/// The prize never exceeds the pool, so paying it is never turned down, and
/// paying it takes exactly the prize as it stood before from the pool.
pub proof fn lemma_pool_after_payout(conf: ConfView)
    ensures
        conf.debit_guard(conf.prize()) is Ok,
        conf.after_debit(conf.prize()).lottery_pool == conf.lottery_pool - conf.prize(),
        conf.after_debit(conf.prize()).lottery_pool + conf.prize() == conf.lottery_pool,
{
}

/// Taking more than the pool holds is turned down with `InsufficientPool`;
/// taking less or as much is accepted.
pub proof fn lemma_debit_answer(conf: ConfView, amount: nat)
    ensures
        amount > conf.lottery_pool ==> conf.debit_guard(amount) == Err::<(), LotteryError>(
            LotteryError::InsufficientPool,
        ),
        amount <= conf.lottery_pool ==> conf.debit_guard(amount) is Ok,
{
}

/// One round at a time: while a round is open, opening another is turned down
/// with `InvalidState`; once the open round was closed, the next opening is
/// accepted, and after it the registry has a round open again.
pub proof fn lemma_one_round_at_a_time(conf: ConfView)
    ensures
        conf.state == ConfState::Active ==> conf.open_guard() == Err::<(), LotteryError>(
            LotteryError::InvalidState,
        ),
        conf.after_close().open_guard() is Ok,
        conf.after_open().open_guard() == Err::<(), LotteryError>(LotteryError::InvalidState),
        conf.after_open().after_close().open_guard() is Ok,
{
}

/// Rounds are numbered in the order in which they are opened: each opening
/// gives the round the next id and moves the counter on by one.
pub proof fn lemma_ids_increase(conf: ConfView, now: u64, later: u64)
    requires
        conf.next_lottery_id < u32::MAX,
    ensures
        conf.opened_round(now).id == conf.next_lottery_id,
        conf.after_open().after_close().opened_round(later).id == conf.next_lottery_id + 1,
{
}

} // verus!
