//! The operations that callers ask for, each cut at the point where the ledger
//! or the source of randomness has to be asked.
//!
//! The part before that point looks at the round that the store gave for an id
//! and says what to ask for. The part after it takes the answer and changes the
//! round and the registry, or leaves both as they were: nothing is changed on
//! the strength of an answer that has not come yet.

use crate::draw::SEED_LENGTH;
use crate::identity::PlayerId;
use crate::registry::LotteryConf;
use crate::round::Lottery;
use crate::round::LotteryData;
use crate::tally::count_of;
use crate::types::BuyTicketArgs;
use crate::types::LedgerError;
use crate::types::LotteryError;
use crate::types::LotteryState;
use crate::types::NumTokens;
use crate::types::TicketQuery;
use crate::types::TransferPayload;
use crate::types::UserArgs;
use vstd::prelude::*;

verus! {

/// What a purchase costs the buyer: the price of the tickets and the fee that
/// the ledger takes for the transfer. The sum must fit in 128 bits.
pub fn get_estimated_amount(conf: &LotteryConf, args: &TicketQuery, fee: NumTokens) -> (amount:
    NumTokens)
    requires
        conf@.quote(args.no_of_tickets as nat) + fee <= u128::MAX,
    ensures
        amount == conf@.quote(args.no_of_tickets as nat) + fee,
{
    conf.calc_ticket_price(&args.no_of_tickets) + fee
}

/// What a winner is paid: the prize less the fee that the ledger takes for the
/// transfer, which the prize must cover.
pub fn payout_amount(prize: NumTokens, fee: NumTokens) -> (amount: NumTokens)
    requires
        fee <= prize,
    ensures
        amount == prize - fee,
{
    prize - fee
}

/// What a round shows of itself, or `UnknownRound` where the store has none.
pub fn get_lottery_info(lottery: Option<&Lottery>) -> (info: Result<LotteryData, LotteryError>)
    requires
        lottery matches Some(round) ==> round.inv(),
    ensures
        lottery is None ==> info == Err::<LotteryData, LotteryError>(LotteryError::UnknownRound),
        lottery matches Some(round) ==> info is Ok && info->Ok_0.shows(round@),
{
    match lottery {
        Some(data) => Ok(data.get_lottery()),
        None => Err(LotteryError::UnknownRound),
    }
}

/// How many tickets a player holds in a round, or `UnknownRound` where the
/// store has none.
pub fn get_no_of_tickets(lottery: Option<&Lottery>, args: &UserArgs) -> (held: Result<
    u32,
    LotteryError,
>)
    requires
        lottery matches Some(round) ==> round.inv(),
    ensures
        lottery is None ==> held == Err::<u32, LotteryError>(LotteryError::UnknownRound),
        lottery matches Some(round) ==> held is Ok && held->Ok_0 == count_of(
            round@.tickets,
            args.user@,
        ),
{
    match lottery {
        Some(round) => Ok(round.get_player_ticket_count(&args.user)),
        None => Err(LotteryError::UnknownRound),
    }
}

/// The first half of a purchase: the amount to collect from the buyer.
///
/// Without a round the answer is `UnknownRound`; a purchase that the round
/// would turn down is turned down here, with the round's answer, before any
/// payment is asked for.
pub fn quote_purchase(
    conf: &LotteryConf,
    lottery: Option<&Lottery>,
    args: &BuyTicketArgs,
    now: u64,
) -> (quoted: Result<NumTokens, LotteryError>)
    requires
        lottery matches Some(round) ==> round.inv(),
        lottery matches Some(round) ==> round@.purchase_guard(args.no_of_tickets, now) is Ok
            ==> conf@.quote(args.no_of_tickets as nat) <= u128::MAX,
    ensures
        lottery is None ==> quoted == Err::<NumTokens, LotteryError>(LotteryError::UnknownRound),
        lottery matches Some(round) ==> match round@.purchase_guard(args.no_of_tickets, now) {
            Ok(_) => quoted is Ok && quoted->Ok_0 == conf@.quote(args.no_of_tickets as nat),
            Err(refused) => quoted == Err::<NumTokens, LotteryError>(refused),
        },
{
    let round = match lottery {
        Some(round) => round,
        None => {
            return Err(LotteryError::UnknownRound);
        },
    };
    if args.no_of_tickets == 0 {
        return Err(LotteryError::InvalidTicketCount);
    }
    match round.check_state(LotteryState::Active) {
        Ok(_) => {},
        Err(_) => {
            return Err(LotteryError::LotteryNotActive);
        },
    }
    match round.check_lottery_ongoing(now) {
        Ok(_) => {},
        Err(refused) => {
            return Err(refused);
        },
    }
    Ok(conf.calc_ticket_price(&args.no_of_tickets))
}

/// The second half of a purchase: what the ledger answered decides.
///
/// Where the ledger refused, the answer is `LedgerTransferFailed` with the
/// ledger's reason. Where it paid, the round answers as `register_tickets`
/// does. Only a purchase that was paid and accepted changes anything: the
/// tickets are issued and their price is added to the pool.
pub fn complete_purchase(
    conf: &mut LotteryConf,
    lottery: &mut Lottery,
    caller: &PlayerId,
    args: &BuyTicketArgs,
    now: u64,
    transfer: Result<(), LedgerError>,
) -> (bought: Result<(), LotteryError>)
    requires
        old(lottery).inv(),
        transfer is Ok && old(lottery)@.purchase_guard(args.no_of_tickets, now) is Ok ==> {
            &&& old(lottery)@.tickets.len() + args.no_of_tickets <= u32::MAX
            &&& old(conf)@.lottery_pool + old(conf)@.quote(args.no_of_tickets as nat) <= u128::MAX
        },
    ensures
        final(lottery).inv(),
        transfer matches Err(reason) ==> bought == Err::<(), LotteryError>(
            LotteryError::LedgerTransferFailed(reason),
        ),
        transfer is Ok ==> bought == old(lottery)@.purchase_guard(args.no_of_tickets, now),
        bought is Ok ==> final(lottery)@ == old(lottery)@.after_purchase(
            caller@,
            args.no_of_tickets,
        ) && final(conf)@ == old(conf)@.after_credit(old(conf)@.quote(args.no_of_tickets as nat)),
        bought is Err ==> *final(lottery) == *old(lottery) && *final(conf) == *old(conf),
{
    match transfer {
        Err(reason) => {
            return Err(LotteryError::LedgerTransferFailed(reason));
        },
        Ok(_) => {},
    }
    match lottery.register_tickets(caller, &args.no_of_tickets, now) {
        Err(refused) => Err(refused),
        Ok(_) => {
            let amount = conf.calc_ticket_price(&args.no_of_tickets);
            conf.increment_pool(&amount);
            Ok(())
        },
    }
}

/// The first half of a draw: whether to ask for a seed at all.
///
/// Without a round the answer is `UnknownRound`; otherwise it is the answer
/// that the round would give to a draw with a seed of the right length.
pub fn check_draw(lottery: Option<&Lottery>, now: u64) -> (checked: Result<(), LotteryError>)
    requires
        lottery matches Some(round) ==> round.inv(),
    ensures
        lottery is None ==> checked == Err::<(), LotteryError>(LotteryError::UnknownRound),
        lottery matches Some(round) ==> checked == round@.draw_guard(SEED_LENGTH as nat, now),
{
    let round = match lottery {
        Some(round) => round,
        None => {
            return Err(LotteryError::UnknownRound);
        },
    };
    match round.check_lottery_ended(now) {
        Ok(_) => {},
        Err(refused) => {
            return Err(refused);
        },
    }
    match round.check_state(LotteryState::Active) {
        Ok(_) => {},
        Err(refused) => {
            return Err(refused);
        },
    }
    if round.tickets_sold() == 0 {
        return Err(LotteryError::NoTicketsSold);
    }
    Ok(())
}

/// The first half of a claim: the payment to ask the ledger for.
///
/// Without a round the answer is `UnknownRound`; a claim that the round would
/// turn down is turned down here with the round's answer. The claim of the
/// owner of the winning ticket is answered with the payment: the prize less
/// the ledger's fee, to the claimant. The prize must cover the fee.
pub fn quote_payout(
    conf: &LotteryConf,
    lottery: Option<&Lottery>,
    caller: &PlayerId,
    fee: NumTokens,
) -> (quoted: Result<TransferPayload, LotteryError>)
    requires
        lottery matches Some(round) ==> round.inv(),
        lottery matches Some(round) ==> round@.claim_guard(caller@) is Ok ==> fee
            <= conf@.prize(),
    ensures
        lottery is None ==> quoted == Err::<TransferPayload, LotteryError>(
            LotteryError::UnknownRound,
        ),
        lottery matches Some(round) ==> match round@.claim_guard(caller@) {
            Ok(_) => quoted is Ok && quoted->Ok_0.to@ == caller@ && quoted->Ok_0.amount
                == conf@.prize() - fee,
            Err(refused) => quoted == Err::<TransferPayload, LotteryError>(refused),
        },
{
    let round = match lottery {
        Some(round) => round,
        None => {
            return Err(LotteryError::UnknownRound);
        },
    };
    match round.check_owner(caller) {
        Ok(_) => {},
        Err(refused) => {
            return Err(refused);
        },
    }
    Ok(TransferPayload { to: caller.clone(), amount: payout_amount(conf.get_prize(), fee) })
}

/// The second half of a claim: what the ledger answered decides.
///
/// Where the ledger refused, the answer is `LedgerTransferFailed` with the
/// ledger's reason. Where it paid, the round answers as `check_winner` does.
/// Only a claim that was paid and accepted changes anything: the round closes
/// with the claimant as its winner, the prize as it stood before leaves the
/// pool, and the registry may open the next round.
pub fn complete_payout(
    conf: &mut LotteryConf,
    lottery: &mut Lottery,
    caller: &PlayerId,
    transfer: Result<(), LedgerError>,
) -> (paid: Result<(), LotteryError>)
    requires
        old(lottery).inv(),
    ensures
        final(lottery).inv(),
        transfer matches Err(reason) ==> paid == Err::<(), LotteryError>(
            LotteryError::LedgerTransferFailed(reason),
        ),
        transfer is Ok ==> paid == old(lottery)@.claim_guard(caller@),
        paid is Ok ==> final(lottery)@ == old(lottery)@.after_claim(caller@) && final(conf)@
            == old(conf)@.after_debit(old(conf)@.prize()).after_close(),
        paid is Err ==> *final(lottery) == *old(lottery) && *final(conf) == *old(conf),
{
    match transfer {
        Err(reason) => {
            return Err(LotteryError::LedgerTransferFailed(reason));
        },
        Ok(_) => {},
    }
    match lottery.check_winner(caller) {
        Err(refused) => Err(refused),
        Ok(_) => {
            let prize = conf.get_prize();
            let taken = conf.decrement_pool(&prize);
            conf.reset_state();
            taken
        },
    }
}

} // verus!
