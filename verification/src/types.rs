//! The plain data that the lottery passes around: states, errors and requests.

use crate::identity::PlayerId;
use vstd::prelude::*;

verus! {

/// An amount of tokens, in the smallest unit of the ledger.
pub type NumTokens = u128;

/// A seed for the draw.
pub type Salt = [u8; 32];

/// Where a round stands. A round only ever moves forward:
/// `Active`, then `Payout`, then `Closed`.
#[derive(Clone, Copy, Debug, PartialEq, Eq, Structural)]
pub enum LotteryState {
    Active,
    Payout,
    Closed,
}

/// Whether the registry has a round open: `Active` while it has.
#[derive(Clone, Copy, Debug, PartialEq, Eq, Structural)]
pub enum ConfState {
    Inactive,
    Active,
}

impl Default for ConfState {
    fn default() -> (state: ConfState)
        ensures
            state == ConfState::Inactive,
    {
        ConfState::Inactive
    }
}

/// Why the payment ledger turned a transfer down.
#[derive(Clone, Copy, Debug, PartialEq, Eq, Structural)]
pub enum LedgerError {
    /// The payer does not hold the amount asked for.
    InsufficientFunds,
    /// Any other refusal, the failure of the call itself included.
    Rejected,
}

/// Every way in which an operation of the lottery can be turned down.
#[derive(Clone, Copy, Debug, PartialEq, Eq, Structural)]
pub enum LotteryError {
    /// The registry or the round is not in the state that the operation needs.
    InvalidState,
    /// A purchase of zero tickets.
    InvalidTicketCount,
    /// Tickets are sold only while the round is `Active`.
    LotteryNotActive,
    /// The sale window of the round is over.
    LotteryEnded,
    /// The sale window of the round is still open.
    LotteryStillOngoing,
    /// A draw needs at least one ticket.
    NoTicketsSold,
    /// The winning ticket has no registered owner.
    TicketOutOfBounds,
    /// The claimant does not own the winning ticket.
    NotWinner,
    /// More was taken from the pool than it holds.
    InsufficientPool,
    /// A seed must be exactly 32 bytes long.
    InvalidSeedLength,
    /// The ledger refused the transfer that the operation depends on.
    LedgerTransferFailed(LedgerError),
    /// No round has the given id.
    UnknownRound,
}

/// A payment that the ledger is asked to make.
#[derive(Debug, PartialEq, Eq)]
pub struct TransferPayload {
    pub to: PlayerId,
    pub amount: NumTokens,
}

/// What the registry is set up with.
#[derive(Clone, Copy, Debug, PartialEq, Eq, Structural)]
pub struct InitArgs {
    pub ticket_price: NumTokens,
    /// How long a round sells tickets, in minutes.
    pub lottery_duration: u64,
}

/// A purchase: so many tickets of that round.
#[derive(Clone, Copy, Debug, PartialEq, Eq, Structural)]
pub struct BuyTicketArgs {
    pub lottery_id: u32,
    pub no_of_tickets: u32,
}

/// A question or an operation that names a round.
#[derive(Clone, Copy, Debug, PartialEq, Eq, Structural)]
pub struct QueryArgs {
    pub lottery_id: u32,
}

/// A question about one player in one round.
#[derive(Debug, PartialEq, Eq)]
pub struct UserArgs {
    pub lottery_id: u32,
    pub user: PlayerId,
}

/// A question about the price of so many tickets.
#[derive(Clone, Copy, Debug, PartialEq, Eq, Structural)]
pub struct TicketQuery {
    pub no_of_tickets: u32,
}

} // verus!
