//! The registry: the price of a ticket, the length of a round, the pool, the
//! counter that numbers the rounds, and the switch that lets one round be open at
//! a time.

use crate::identity::nobody;
use crate::round::Lottery;
use crate::round::LotteryView;
use crate::types::ConfState;
use crate::types::InitArgs;
use crate::types::LotteryError;
use crate::types::LotteryState;
use crate::types::NumTokens;
use vstd::prelude::*;

verus! {

/// The nanoseconds of one minute.
pub const NANOS_PER_MINUTE: u64 = 60_000_000_000;

/// The registry of the lottery.
#[derive(Clone, Copy, Debug, PartialEq, Eq, Structural)]
pub struct LotteryConf {
    /// The id that the next round gets; no id is given twice.
    pub next_lottery_id: u32,
    pub ticket_price: NumTokens,
    /// The length of a round's sale window, in nanoseconds.
    pub lottery_duration: u64,
    /// What was collected for tickets and not yet paid out.
    pub lottery_pool: NumTokens,
    pub state: ConfState,
}

/// The registry as a mathematical value, with unbounded numbers.
pub struct ConfView {
    pub next_lottery_id: nat,
    pub ticket_price: nat,
    pub lottery_duration: nat,
    pub lottery_pool: nat,
    pub state: ConfState,
}

impl ConfView {
    /// The price of `count` tickets.
    pub open spec fn quote(self, count: nat) -> nat {
        self.ticket_price * count
    }

    /// The prize: half of the pool, rounded down; the odd unit stays in the pool.
    pub open spec fn prize(self) -> nat {
        self.lottery_pool / 2
    }

    /// The registry after `amount` was added to the pool.
    pub open spec fn after_credit(self, amount: nat) -> ConfView {
        ConfView { lottery_pool: self.lottery_pool + amount, ..self }
    }

    /// How taking `amount` from the pool is answered.
    pub open spec fn debit_guard(self, amount: nat) -> Result<(), LotteryError> {
        if amount > self.lottery_pool {
            Err(LotteryError::InsufficientPool)
        } else {
            Ok(())
        }
    }

    /// The registry after `amount` was taken from the pool.
    pub open spec fn after_debit(self, amount: nat) -> ConfView {
        ConfView { lottery_pool: (self.lottery_pool - amount) as nat, ..self }
    }

    /// How opening a round is answered.
    pub open spec fn open_guard(self) -> Result<(), LotteryError> {
        if self.state != ConfState::Inactive {
            Err(LotteryError::InvalidState)
        } else {
            Ok(())
        }
    }

    /// The registry after it has opened a round.
    pub open spec fn after_open(self) -> ConfView {
        ConfView { next_lottery_id: self.next_lottery_id + 1, state: ConfState::Active, ..self }
    }

    /// The round that the registry opens at `now`.
    pub open spec fn opened_round(self, now: u64) -> LotteryView {
        LotteryView {
            id: self.next_lottery_id as u32,
            winner: nobody(),
            tickets: Seq::<Seq<u8>>::empty(),
            winning_ticket: 0,
            amount_in_lottery: 0,
            start_time: now,
            end_time: (now + self.lottery_duration) as u64,
            state: LotteryState::Active,
        }
    }

    /// The registry after the open round was closed.
    pub open spec fn after_close(self) -> ConfView {
        ConfView { state: ConfState::Inactive, ..self }
    }
}

impl View for LotteryConf {
    type V = ConfView;

    open spec fn view(&self) -> ConfView {
        ConfView {
            next_lottery_id: self.next_lottery_id as nat,
            ticket_price: self.ticket_price as nat,
            lottery_duration: self.lottery_duration as nat,
            lottery_pool: self.lottery_pool as nat,
            state: self.state,
        }
    }
}

impl Default for LotteryConf {
    fn default() -> (conf: LotteryConf)
        ensures
            conf@ == (ConfView {
                next_lottery_id: 0,
                ticket_price: 0,
                lottery_duration: 0,
                lottery_pool: 0,
                state: ConfState::Inactive,
            }),
    {
        LotteryConf {
            next_lottery_id: 0,
            ticket_price: 0,
            lottery_duration: 0,
            lottery_pool: 0,
            state: ConfState::Inactive,
        }
    }
}

impl LotteryConf {
    /// Sets the registry up: the price, the length of a round, which `args`
    /// gives in minutes, an empty pool, the first id and no open round. The
    /// length must fit in 64 bits as nanoseconds.
    pub fn init(&mut self, args: InitArgs)
        requires
            args.lottery_duration * NANOS_PER_MINUTE <= u64::MAX,
        ensures
            final(self)@ == (ConfView {
                next_lottery_id: 0,
                ticket_price: args.ticket_price as nat,
                lottery_duration: (args.lottery_duration * NANOS_PER_MINUTE) as nat,
                lottery_pool: 0,
                state: ConfState::Inactive,
            }),
    {
        self.next_lottery_id = 0;
        self.ticket_price = args.ticket_price;
        self.lottery_duration = args.lottery_duration * NANOS_PER_MINUTE;
        self.lottery_pool = 0;
        self.state = ConfState::Inactive;
    }

    /// The price of `no_of_tickets` tickets, which must fit in 128 bits.
    pub fn calc_ticket_price(&self, no_of_tickets: &u32) -> (amount: NumTokens)
        requires
            self@.quote(*no_of_tickets as nat) <= u128::MAX,
        ensures
            amount == self@.quote(*no_of_tickets as nat),
    {
        let count: u128 = *no_of_tickets as u128;
        assert(self.ticket_price * count == self@.quote(*no_of_tickets as nat));
        self.ticket_price * count
    }

    /// Adds `amount` to the pool, which must still fit in 128 bits.
    pub fn increment_pool(&mut self, amount: &NumTokens)
        requires
            old(self)@.lottery_pool + *amount <= u128::MAX,
        ensures
            final(self)@ == old(self)@.after_credit(*amount as nat),
    {
        self.lottery_pool = self.lottery_pool + *amount;
    }

    /// Takes `amount` from the pool, or answers `InsufficientPool` and leaves the
    /// pool as it is where it holds less.
    pub fn decrement_pool(&mut self, amount: &NumTokens) -> (taken: Result<(), LotteryError>)
        ensures
            taken == old(self)@.debit_guard(*amount as nat),
            taken is Ok ==> final(self)@ == old(self)@.after_debit(*amount as nat),
            taken is Err ==> *final(self) == *old(self),
    {
        if *amount > self.lottery_pool {
            return Err(LotteryError::InsufficientPool);
        }
        self.lottery_pool = self.lottery_pool - *amount;
        Ok(())
    }

    /// Opens a round at `now`.
    ///
    /// While a round is open the answer is `InvalidState` and nothing changes.
    /// Otherwise the new round gets the next id, has no tickets, sells from
    /// `now` for the length that the registry was set up with, and the registry
    /// stays closed to other rounds until `reset_state`. Ids and times must fit
    /// their 32 and 64 bits.
    pub fn gen_lottery(&mut self, now: u64) -> (opened: Result<Lottery, LotteryError>)
        requires
            old(self)@.open_guard() is Ok ==> old(self).next_lottery_id < u32::MAX && now + old(
                self,
            ).lottery_duration <= u64::MAX,
        ensures
            opened is Ok <==> old(self)@.open_guard() is Ok,
            opened matches Err(refused) ==> Err::<(), LotteryError>(refused) == old(
                self,
            )@.open_guard() && *final(self) == *old(self),
            opened matches Ok(round) ==> round.inv() && round@ == old(self)@.opened_round(now)
                && final(self)@ == old(self)@.after_open(),
    {
        if self.state != ConfState::Inactive {
            return Err(LotteryError::InvalidState);
        }
        let id = self.next_lottery_id;
        self.next_lottery_id += 1;
        self.state = ConfState::Active;
        Ok(Lottery::open(id, now, now + self.lottery_duration))
    }

    /// Lets the next round be opened.
    pub fn reset_state(&mut self)
        ensures
            final(self)@ == old(self)@.after_close(),
    {
        self.state = ConfState::Inactive;
    }

    /// Whether the registry is in `state`.
    pub fn check_state(&self, state: ConfState) -> (checked: Result<(), LotteryError>)
        ensures
            self.state == state ==> checked is Ok,
            self.state != state ==> checked == Err::<(), LotteryError>(
                LotteryError::InvalidState,
            ),
    {
        if self.state != state {
            return Err(LotteryError::InvalidState);
        }
        Ok(())
    }

    /// The prize that a winner is owed: half of the pool, rounded down.
    pub fn get_prize(&self) -> (prize: NumTokens)
        ensures
            prize == self@.prize(),
    {
        self.lottery_pool / 2
    }

    /// A copy of the registry.
    pub fn get_configuration(&self) -> (conf: LotteryConf)
        ensures
            conf == *self,
    {
        *self
    }
}

} // verus!
