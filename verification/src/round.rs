//! One round of the lottery: its ticket registry, what each player holds, its
//! sale window and its three states.

use crate::draw::chacha20_first_u64;
use crate::draw::draw_ticket;
use crate::draw::selected_ticket;
use crate::draw::SEED_LENGTH;
use crate::identity::nobody;
use crate::identity::PlayerId;
use crate::tally::batch;
use crate::tally::count_of;
use crate::tally::lemma_count_batch;
use crate::tally::lemma_count_bounded;
use crate::tally::lemma_count_positive;
use crate::types::LotteryError;
use crate::types::LotteryState;
use crate::types::NumTokens;
use std::collections::HashMap;
use vstd::prelude::*;

verus! {

broadcast use vstd::std_specs::hash::group_hash_axioms;

/// What one player holds in a round.
struct PlayerTickets {
    player: PlayerId,
    tickets: u32,
}

/// A round of the lottery.
pub struct Lottery {
    id: u32,
    winner: PlayerId,
    no_of_tickets_sold: u32,
    no_of_players: u32,
    winning_ticket: u32,
    amount_in_lottery: NumTokens,
    lottery_start_time: u64,
    lottery_end_time: u64,
    lottery_state: LotteryState,
    /// The owner of each ticket, by the ticket's index.
    ticket_ids: HashMap<u32, PlayerId>,
    /// What each player holds; no player stands in it twice.
    players_tickets: Vec<PlayerTickets>,
}

/// What a round shows of itself.
#[derive(Debug, PartialEq, Eq)]
pub struct LotteryData {
    pub id: u32,
    pub winner: PlayerId,
    pub no_of_tickets_sold: u32,
    pub no_of_players: u32,
    pub winning_ticket: u32,
    pub amount_in_lottery: NumTokens,
    pub lottery_start_time: u64,
    pub lottery_end_time: u64,
    pub lottery_state: LotteryState,
}

/// The owners that a list of ticket holders names, ticket by ticket.
pub open spec fn owners_of(holders: Seq<PlayerId>) -> Seq<Seq<u8>> {
    Seq::new(holders.len(), |i: int| holders[i]@)
}

impl LotteryData {
    /// Whether this is what `round` shows of itself: its fields, the number of
    /// its tickets and the number of the players who own one.
    pub open spec fn shows(self, round: LotteryView) -> bool {
        &&& self.id == round.id
        &&& self.winner@ == round.winner
        &&& self.no_of_tickets_sold == round.tickets.len()
        &&& self.no_of_players == round.tickets.to_set().len()
        &&& self.winning_ticket == round.winning_ticket
        &&& self.amount_in_lottery == round.amount_in_lottery
        &&& self.lottery_start_time == round.start_time
        &&& self.lottery_end_time == round.end_time
        &&& self.lottery_state == round.state
    }

    /// The round that these data and the owners of its tickets describe.
    pub open spec fn described(self, tickets: Seq<Seq<u8>>) -> LotteryView {
        LotteryView {
            id: self.id,
            winner: self.winner@,
            tickets,
            winning_ticket: self.winning_ticket,
            amount_in_lottery: self.amount_in_lottery,
            start_time: self.lottery_start_time,
            end_time: self.lottery_end_time,
            state: self.lottery_state,
        }
    }

    /// Whether these data and the owners of the tickets fit together: the data
    /// show the round that they describe, and that round is valid.
    pub open spec fn fits(self, tickets: Seq<Seq<u8>>) -> bool {
        self.shows(self.described(tickets)) && self.described(tickets).valid()
    }
}

/// A round as a mathematical value.
pub struct LotteryView {
    pub id: u32,
    /// The identity of nobody until a claim succeeds, then the winner.
    pub winner: Seq<u8>,
    /// The owner of each ticket, in the order of issue.
    pub tickets: Seq<Seq<u8>>,
    pub winning_ticket: u32,
    pub amount_in_lottery: NumTokens,
    pub start_time: u64,
    pub end_time: u64,
    pub state: LotteryState,
}

impl LotteryView {
    /// What holds of every round: the winning ticket is one of the tickets once
    /// it is drawn, the winner is nobody until the round is closed, and the
    /// winner of a closed round owns the winning ticket.
    pub open spec fn valid(self) -> bool {
        &&& self.tickets.len() <= u32::MAX
        &&& self.start_time <= self.end_time
        &&& self.state != LotteryState::Active ==> self.winning_ticket < self.tickets.len()
        &&& self.state != LotteryState::Closed ==> self.winner == nobody()
        &&& self.state == LotteryState::Closed ==> self.winner
            == self.tickets[self.winning_ticket as int]
    }

    /// Whether the sale window is over at `now`.
    pub open spec fn ended(self, now: u64) -> bool {
        now >= self.end_time
    }

    /// How a purchase of `count` tickets at `now` is answered.
    pub open spec fn purchase_guard(self, count: u32, now: u64) -> Result<(), LotteryError> {
        if count == 0 {
            Err(LotteryError::InvalidTicketCount)
        } else if self.state != LotteryState::Active {
            Err(LotteryError::LotteryNotActive)
        } else if now > self.end_time {
            Err(LotteryError::LotteryEnded)
        } else {
            Ok(())
        }
    }

    /// The round after `owner` has bought `count` tickets.
    pub open spec fn after_purchase(self, owner: Seq<u8>, count: u32) -> LotteryView {
        LotteryView { tickets: self.tickets + batch(owner, count as nat), ..self }
    }

    /// How a draw at `now` with a seed of `seed_length` bytes is answered.
    pub open spec fn draw_guard(self, seed_length: nat, now: u64) -> Result<(), LotteryError> {
        if now < self.end_time {
            Err(LotteryError::LotteryStillOngoing)
        } else if self.state != LotteryState::Active {
            Err(LotteryError::InvalidState)
        } else if self.tickets.len() == 0 {
            Err(LotteryError::NoTicketsSold)
        } else if seed_length != SEED_LENGTH {
            Err(LotteryError::InvalidSeedLength)
        } else {
            Ok(())
        }
    }

    /// The round after a draw in which the generator gave `word`.
    pub open spec fn after_draw(self, word: u64) -> LotteryView {
        LotteryView {
            winning_ticket: selected_ticket(word, self.tickets.len() as u32) as u32,
            state: LotteryState::Payout,
            ..self
        }
    }

    /// How a claim by `claimant` is answered.
    pub open spec fn claim_guard(self, claimant: Seq<u8>) -> Result<(), LotteryError> {
        if self.state != LotteryState::Payout {
            Err(LotteryError::InvalidState)
        } else if self.winning_ticket >= self.tickets.len() {
            Err(LotteryError::TicketOutOfBounds)
        } else if self.tickets[self.winning_ticket as int] != claimant {
            Err(LotteryError::NotWinner)
        } else {
            Ok(())
        }
    }

    /// The round after `claimant` has claimed the prize.
    pub open spec fn after_claim(self, claimant: Seq<u8>) -> LotteryView {
        LotteryView { winner: claimant, state: LotteryState::Closed, ..self }
    }
}

/// The tickets that the entries of a round add up to.
pub open spec fn entries_total(entries: Seq<(Seq<u8>, nat)>) -> nat
    decreases entries.len(),
{
    if entries.len() == 0 {
        0
    } else {
        entries_total(entries.drop_last()) + entries.last().1
    }
}

/// Replacing one entry changes the total by the difference of the two.
proof fn lemma_total_update(entries: Seq<(Seq<u8>, nat)>, at: int, entry: (Seq<u8>, nat))
    requires
        0 <= at < entries.len(),
    ensures
        entries_total(entries.update(at, entry)) + entries[at].1 == entries_total(entries)
            + entry.1,
    decreases entries.len(),
{
    let front = entries.drop_last();
    let updated = entries.update(at, entry);
    if at == entries.len() - 1 {
        assert(updated.drop_last() =~= front);
    } else {
        lemma_total_update(front, at, entry);
        assert(updated.drop_last() =~= front.update(at, entry));
    }
}

/// Where every entry holds a ticket, there are no more entries than tickets.
proof fn lemma_total_covers(entries: Seq<(Seq<u8>, nat)>)
    requires
        forall|i: int| 0 <= i < entries.len() ==> (#[trigger] entries[i]).1 > 0,
    ensures
        entries.len() <= entries_total(entries),
    decreases entries.len(),
{
    if entries.len() > 0 {
        let front = entries.drop_last();
        assert forall|i: int| 0 <= i < front.len() implies (#[trigger] front[i]).1 > 0 by {
            assert(front[i] == entries[i]);
        }
        lemma_total_covers(front);
    }
}

/// There are `n` numbers below `n`.
proof fn lemma_below_len(n: u32)
    ensures
        Set::new(|k: u32| k < n).finite(),
        Set::new(|k: u32| k < n).len() == n,
    decreases n,
{
    let below = Set::new(|k: u32| k < n);
    if n == 0 {
        assert(below =~= Set::<u32>::empty());
    } else {
        let fewer = (n - 1) as u32;
        lemma_below_len(fewer);
        assert(below =~= Set::new(|k: u32| k < fewer).insert(fewer));
    }
}

/// The place of `user` among the entries, if the player has one.
fn position(held: &Vec<PlayerTickets>, user: &PlayerId) -> (found: Option<usize>)
    ensures
        match found {
            Some(at) => at < held@.len() && held@[at as int].player@ == user@,
            None => forall|i: int| 0 <= i < held@.len() ==> held@[i].player@ != user@,
        },
{
    let mut at: usize = 0;
    while at < held.len()
        invariant
            at <= held@.len(),
            forall|i: int| 0 <= i < at ==> held@[i].player@ != user@,
        decreases held@.len() - at,
    {
        if held[at].player.same(user) {
            return Some(at);
        }
        at += 1;
    }
    None
}

/// Issues the tickets `from` to `to - 1` to `owner`.
fn issue(registry: &mut HashMap<u32, PlayerId>, from: u32, to: u32, owner: &PlayerId)
    requires
        from <= to,
        old(registry)@.dom() =~= Set::new(|k: u32| k < from),
    ensures
        final(registry)@.dom() =~= Set::new(|k: u32| k < to),
        forall|k: u32| k < from ==> final(registry)@[k] == old(registry)@[k],
        forall|k: u32| from <= k < to ==> final(registry)@[k]@ == owner@,
{
    let mut new_ticket_id: u32 = from;
    while new_ticket_id < to
        invariant
            from <= new_ticket_id <= to,
            registry@.dom() =~= Set::new(|k: u32| k < new_ticket_id),
            forall|k: u32| k < from ==> registry@[k] == old(registry)@[k],
            forall|k: u32| from <= k < new_ticket_id ==> registry@[k]@ == owner@,
        decreases to - new_ticket_id,
    {
        registry.insert(new_ticket_id, owner.clone());
        new_ticket_id += 1;
    }
}

impl View for Lottery {
    type V = LotteryView;

    closed spec fn view(&self) -> LotteryView {
        LotteryView {
            id: self.id,
            winner: self.winner@,
            tickets: Seq::new(
                self.no_of_tickets_sold as nat,
                |i: int| self.ticket_ids@[i as u32]@,
            ),
            winning_ticket: self.winning_ticket,
            amount_in_lottery: self.amount_in_lottery,
            start_time: self.lottery_start_time,
            end_time: self.lottery_end_time,
            state: self.lottery_state,
        }
    }
}

impl Lottery {
    /// The ticket registry: the owner of each ticket that was issued, by the
    /// ticket's index.
    pub closed spec fn ticket_owner(&self) -> Map<u32, Seq<u8>> {
        Map::new(
            |k: u32| self.ticket_ids@.contains_key(k),
            |k: u32| self.ticket_ids@[k]@,
        )
    }

    /// What each player holds, in the order of the players' first purchases.
    pub closed spec fn player_ticket_count(&self) -> Seq<(Seq<u8>, nat)> {
        Seq::new(
            self.players_tickets@.len(),
            |i: int| (self.players_tickets@[i].player@, self.players_tickets@[i].tickets as nat),
        )
    }

    /// The invariant of a round: the registry holds the tickets `0` to
    /// `tickets_sold - 1` and no other, every player who owns a ticket has one
    /// entry, and the entry says how many tickets the player owns.
    pub closed spec fn inv(&self) -> bool {
        let tickets = self@.tickets;
        let entries = self.player_ticket_count();
        &&& self@.valid()
        &&& self.ticket_ids@.dom() =~= Set::new(|k: u32| k < self.no_of_tickets_sold)
        &&& self.no_of_players == entries.len()
        &&& entries_total(entries) == self.no_of_tickets_sold
        &&& forall|i: int, j: int|
            0 <= i < j < entries.len() ==> (#[trigger] entries[i]).0 != (#[trigger] entries[j]).0
        &&& forall|i: int|
            0 <= i < entries.len() ==> (#[trigger] entries[i]).1 > 0 && entries[i].1 == count_of(
                tickets,
                entries[i].0,
            )
        &&& forall|k: int|
            0 <= k < tickets.len() ==> exists|i: int|
                0 <= i < entries.len() && (#[trigger] entries[i]).0 == #[trigger] tickets[k]
    }

    /// A new round without tickets, which sells from `start` to `end`.
    pub(crate) fn open(id: u32, start: u64, end: u64) -> (round: Lottery)
        requires
            start <= end,
        ensures
            round.inv(),
            round@ == (LotteryView {
                id,
                winner: nobody(),
                tickets: Seq::<Seq<u8>>::empty(),
                winning_ticket: 0,
                amount_in_lottery: 0,
                start_time: start,
                end_time: end,
                state: LotteryState::Active,
            }),
    {
        let round = Lottery {
            id,
            winner: PlayerId::anonymous(),
            no_of_tickets_sold: 0,
            no_of_players: 0,
            winning_ticket: 0,
            amount_in_lottery: 0,
            lottery_start_time: start,
            lottery_end_time: end,
            lottery_state: LotteryState::Active,
            ticket_ids: HashMap::new(),
            players_tickets: Vec::new(),
        };
        assert(round@.tickets =~= Seq::<Seq<u8>>::empty());
        assert(round.player_ticket_count() =~= Seq::<(Seq<u8>, nat)>::empty());
        round
    }

    /// How many tickets the round has sold.
    pub fn tickets_sold(&self) -> (sold: u32)
        requires
            self.inv(),
        ensures
            sold == self@.tickets.len(),
    {
        self.no_of_tickets_sold
    }

    /// Whether the round is in `state`.
    pub fn check_state(&self, state: LotteryState) -> (checked: Result<(), LotteryError>)
        ensures
            self@.state == state ==> checked is Ok,
            self@.state != state ==> checked == Err::<(), LotteryError>(
                LotteryError::InvalidState,
            ),
    {
        if self.lottery_state != state {
            return Err(LotteryError::InvalidState);
        }
        Ok(())
    }

    /// Whether the sale window is over at `now`: it is from its last instant on.
    pub fn ended(&self, now: u64) -> (over: bool)
        ensures
            over == self@.ended(now),
    {
        now >= self.lottery_end_time
    }

    /// Whether the sale window is still open at `now`.
    pub fn ongoing(&self, now: u64) -> (open: bool)
        ensures
            open == !self@.ended(now),
    {
        now < self.lottery_end_time
    }

    /// Asks that the sale window be over at `now`, as a draw needs it.
    pub fn check_lottery_ended(&self, now: u64) -> (checked: Result<(), LotteryError>)
        ensures
            now >= self@.end_time ==> checked is Ok,
            now < self@.end_time ==> checked == Err::<(), LotteryError>(
                LotteryError::LotteryStillOngoing,
            ),
    {
        if self.lottery_end_time > now {
            return Err(LotteryError::LotteryStillOngoing);
        }
        Ok(())
    }

    /// Asks that tickets can still be bought at `now`: they can up to and
    /// including the last instant of the sale window.
    pub fn check_lottery_ongoing(&self, now: u64) -> (checked: Result<(), LotteryError>)
        ensures
            now <= self@.end_time ==> checked is Ok,
            now > self@.end_time ==> checked == Err::<(), LotteryError>(
                LotteryError::LotteryEnded,
            ),
    {
        if self.lottery_end_time < now {
            return Err(LotteryError::LotteryEnded);
        }
        Ok(())
    }

    /// The round counts as its players exactly the owners of its tickets.
    proof fn lemma_players(&self)
        requires
            self.inv(),
        ensures
            self.no_of_players == self@.tickets.to_set().len(),
    {
        let entries = self.player_ticket_count();
        let tickets = self@.tickets;
        let owners = Seq::new(entries.len(), |i: int| entries[i].0);
        assert forall|i: int, j: int|
            0 <= i < owners.len() && 0 <= j < owners.len() && i != j implies owners[i]
            != owners[j] by {
            if i < j {
                assert(entries[i].0 != entries[j].0);
            } else {
                assert(entries[j].0 != entries[i].0);
            }
        }
        owners.unique_seq_to_set();
        assert forall|owner: Seq<u8>| owners.to_set().contains(owner) implies tickets.to_set().contains(
            owner,
        ) by {
            let i = choose|i: int| 0 <= i < owners.len() && owners[i] == owner;
            assert(entries[i].1 > 0);
            lemma_count_positive(tickets, owner);
            let k = choose|k: int| 0 <= k < tickets.len() && #[trigger] tickets[k] == owner;
            assert(tickets.contains(tickets[k]));
        }
        assert forall|owner: Seq<u8>| tickets.to_set().contains(owner) implies owners.to_set().contains(
            owner,
        ) by {
            let k = choose|k: int| 0 <= k < tickets.len() && tickets[k] == owner;
            let i = choose|i: int|
                0 <= i < entries.len() && (#[trigger] entries[i]).0 == tickets[k];
            assert(owners[i] == owner);
            assert(owners.contains(owners[i]));
        }
        assert(owners.to_set() =~= tickets.to_set());
    }

    /// Every round that keeps its invariant is consistent: its registry holds
    /// exactly the tickets `0` to `tickets_sold - 1`, each with its owner; no
    /// player has two entries; each entry says how many tickets its player owns,
    /// which is at least one; and the entries add up to the tickets sold.
    pub proof fn lemma_consistent(&self)
        requires
            self.inv(),
        ensures
            self@.valid(),
            self.ticket_owner().dom() =~= Set::new(|k: u32| k < self@.tickets.len()),
            self.ticket_owner().dom().len() == self@.tickets.len(),
            forall|k: u32|
                k < self@.tickets.len() ==> #[trigger] self.ticket_owner()[k]
                    == self@.tickets[k as int],
            entries_total(self.player_ticket_count()) == self@.tickets.len(),
            self.player_ticket_count().len() == self@.tickets.to_set().len(),
            forall|i: int, j: int|
                0 <= i < j < self.player_ticket_count().len() ==> (
                #[trigger] self.player_ticket_count()[i]).0 != (
                #[trigger] self.player_ticket_count()[j]).0,
            forall|i: int|
                0 <= i < self.player_ticket_count().len() ==> (
                #[trigger] self.player_ticket_count()[i]).1 == count_of(
                    self@.tickets,
                    self.player_ticket_count()[i].0,
                ) && self.player_ticket_count()[i].1 > 0,
    {
        self.lemma_players();
        lemma_below_len(self.no_of_tickets_sold);
        assert(self.ticket_owner().dom() =~= Set::new(|k: u32| k < self.no_of_tickets_sold));
    }

    /// How many tickets `user` holds in the round; none for a player who never
    /// bought one.
    pub fn get_player_ticket_count(&self, user: &PlayerId) -> (held: u32)
        requires
            self.inv(),
        ensures
            held == count_of(self@.tickets, user@),
    {
        proof {
            lemma_count_positive(self@.tickets, user@);
        }
        match position(&self.players_tickets, user) {
            Some(at) => {
                assert(self.player_ticket_count()[at as int].0 == user@);
                self.players_tickets[at].tickets
            },
            None => {
                assert forall|k: int| 0 <= k < self@.tickets.len() implies self@.tickets[k]
                    != user@ by {
                    let i = choose|i: int|
                        0 <= i < self.player_ticket_count().len() && (
                        #[trigger] self.player_ticket_count()[i]).0 == self@.tickets[k];
                    assert(self.players_tickets@[i].player@ != user@);
                }
                0
            },
        }
    }

    /// Sells `no_of_tickets` tickets to `caller` at `now`.
    ///
    /// A purchase of no ticket is turned down with `InvalidTicketCount`, one in
    /// a round that is not `Active` with `LotteryNotActive`, one after the sale
    /// window with `LotteryEnded`, in this order. Every other purchase issues the
    /// next `no_of_tickets` ticket indices to `caller`. A round holds at most
    /// `u32::MAX` tickets.
    pub fn register_tickets(&mut self, caller: &PlayerId, no_of_tickets: &u32, now: u64) -> (registered:
        Result<(), LotteryError>)
        requires
            old(self).inv(),
            old(self)@.purchase_guard(*no_of_tickets, now) is Ok ==> old(self)@.tickets.len()
                + *no_of_tickets <= u32::MAX,
        ensures
            final(self).inv(),
            registered == old(self)@.purchase_guard(*no_of_tickets, now),
            registered is Ok ==> final(self)@ == old(self)@.after_purchase(caller@, *no_of_tickets),
            registered is Err ==> *final(self) == *old(self),
    {
        let count = *no_of_tickets;
        if count == 0 {
            return Err(LotteryError::InvalidTicketCount);
        }
        if self.lottery_state != LotteryState::Active {
            return Err(LotteryError::LotteryNotActive);
        }
        if now > self.lottery_end_time {
            return Err(LotteryError::LotteryEnded);
        }
        let ghost before = *self;
        let ghost tickets = self@.tickets;
        let ghost entries = self.player_ticket_count();
        let ghost bought = tickets + batch(caller@, count as nat);
        let old_ticket_count = self.no_of_tickets_sold;
        let new_total = count + old_ticket_count;
        let found = position(&self.players_tickets, caller);
        proof {
            lemma_count_bounded(tickets, caller@);
            lemma_total_covers(entries);
        }
        issue(&mut self.ticket_ids, old_ticket_count, new_total, caller);
        match found {
            Some(at) => {
                assert(entries[at as int].0 == caller@);
                let held = self.players_tickets[at].tickets;
                self.players_tickets[at] = PlayerTickets {
                    player: caller.clone(),
                    tickets: held + count,
                };
                proof {
                    let entry = (caller@, (held + count) as nat);
                    assert(self.player_ticket_count() =~= entries.update(at as int, entry));
                    lemma_total_update(entries, at as int, entry);
                }
            },
            None => {
                self.no_of_players += 1;
                self.players_tickets.push(PlayerTickets { player: caller.clone(), tickets: count });
                proof {
                    let entry = (caller@, count as nat);
                    assert(self.player_ticket_count() =~= entries.push(entry));
                    assert(entries.push(entry).drop_last() =~= entries);
                }
            },
        }
        self.no_of_tickets_sold = new_total;
        proof {
            let after = self.player_ticket_count();
            assert(self@.tickets =~= bought);
            assert(self@ == before@.after_purchase(caller@, count));
            assert forall|i: int| 0 <= i < after.len() implies (#[trigger] after[i]).1 > 0
                && after[i].1 == count_of(bought, after[i].0) by {
                lemma_count_batch(tickets, caller@, count as nat, after[i].0);
                if i < entries.len() {
                    assert(entries[i].1 == count_of(tickets, entries[i].0));
                } else {
                    lemma_count_positive(tickets, caller@);
                    if count_of(tickets, caller@) > 0 {
                        let k = choose|k: int|
                            0 <= k < tickets.len() && #[trigger] tickets[k] == caller@;
                        let j = choose|j: int|
                            0 <= j < entries.len() && (#[trigger] entries[j]).0 == tickets[k];
                        assert(before.players_tickets@[j].player@ == caller@);
                    }
                }
            }
            assert forall|i: int, j: int| 0 <= i < j < after.len() implies (#[trigger] after[i]).0
                != (#[trigger] after[j]).0 by {
                if j < entries.len() {
                    assert(entries[i].0 != entries[j].0);
                } else {
                    assert(before.players_tickets@[i].player@ != caller@);
                }
            }
            assert forall|k: int| 0 <= k < bought.len() implies exists|i: int|
                0 <= i < after.len() && (#[trigger] after[i]).0 == #[trigger] bought[k] by {
                if k < tickets.len() {
                    let i = choose|i: int|
                        0 <= i < entries.len() && (#[trigger] entries[i]).0 == tickets[k];
                    assert(after[i].0 == bought[k]);
                } else {
                    match found {
                        Some(at) => {
                            assert(after[at as int].0 == bought[k]);
                        },
                        None => {
                            assert(after[after.len() - 1].0 == bought[k]);
                        },
                    }
                }
            }
        }
        Ok(())
    }

    /// Draws the winning ticket at `now` from `seed`.
    ///
    /// A draw before the end of the sale window is turned down with
    /// `LotteryStillOngoing`, one in a round that is not `Active` with
    /// `InvalidState`, one without tickets with `NoTicketsSold`, one with a seed
    /// that is not 32 bytes long with `InvalidSeedLength`, in this order. Every
    /// other draw fixes the winning ticket and moves the round to `Payout`.
    pub fn get_winning_ticket(&mut self, seed: &[u8], now: u64) -> (drawn: Result<
        (),
        LotteryError,
    >)
        requires
            old(self).inv(),
        ensures
            final(self).inv(),
            drawn == old(self)@.draw_guard(seed@.len(), now),
            drawn is Ok ==> final(self)@ == old(self)@.after_draw(chacha20_first_u64(seed@)),
            drawn is Err ==> *final(self) == *old(self),
    {
        if now < self.lottery_end_time {
            return Err(LotteryError::LotteryStillOngoing);
        }
        if self.lottery_state != LotteryState::Active {
            return Err(LotteryError::InvalidState);
        }
        if self.no_of_tickets_sold == 0 {
            return Err(LotteryError::NoTicketsSold);
        }
        let ghost before = *self;
        match draw_ticket(seed, self.no_of_tickets_sold) {
            Err(refused) => Err(refused),
            Ok(ticket) => {
                self.winning_ticket = ticket;
                self.lottery_state = LotteryState::Payout;
                proof {
                    assert(self@.tickets =~= before@.tickets);
                    assert(self.player_ticket_count() =~= before.player_ticket_count());
                }
                Ok(())
            },
        }
    }

    /// Whether a claim by `caller` would be accepted; nothing changes.
    pub fn check_owner(&self, caller: &PlayerId) -> (checked: Result<(), LotteryError>)
        requires
            self.inv(),
        ensures
            checked == self@.claim_guard(caller@),
            checked != Err::<(), LotteryError>(LotteryError::TicketOutOfBounds),
    {
        if self.lottery_state != LotteryState::Payout {
            return Err(LotteryError::InvalidState);
        }
        match self.ticket_ids.get(&self.winning_ticket) {
            Some(owner) => {
                if owner.same(caller) {
                    Ok(())
                } else {
                    Err(LotteryError::NotWinner)
                }
            },
            None => Err(LotteryError::TicketOutOfBounds),
        }
    }

    /// Hands the round to `caller` if `caller` owns the winning ticket.
    ///
    /// A claim in a round that is not in `Payout` is turned down with
    /// `InvalidState`, one by anybody but the owner of the winning ticket with
    /// `NotWinner`. The claim of the owner makes the owner the winner and closes
    /// the round. `TicketOutOfBounds` answers a winning ticket without an owner,
    /// which no round that keeps its invariant has.
    pub fn check_winner(&mut self, caller: &PlayerId) -> (checked: Result<(), LotteryError>)
        requires
            old(self).inv(),
        ensures
            final(self).inv(),
            checked == old(self)@.claim_guard(caller@),
            checked != Err::<(), LotteryError>(LotteryError::TicketOutOfBounds),
            checked is Ok ==> final(self)@ == old(self)@.after_claim(caller@),
            checked is Err ==> *final(self) == *old(self),
    {
        if self.lottery_state != LotteryState::Payout {
            return Err(LotteryError::InvalidState);
        }
        let ghost before = *self;
        let winner = match self.ticket_ids.get(&self.winning_ticket) {
            Some(owner) => owner.clone(),
            None => {
                return Err(LotteryError::TicketOutOfBounds);
            },
        };
        if !winner.same(caller) {
            return Err(LotteryError::NotWinner);
        }
        self.winner = winner;
        self.lottery_state = LotteryState::Closed;
        proof {
            assert(self@.tickets =~= before@.tickets);
            assert(self.player_ticket_count() =~= before.player_ticket_count());
        }
        Ok(())
    }

    /// The owner of each ticket, in the order of issue.
    pub fn ticket_holders(&self) -> (holders: Vec<PlayerId>)
        requires
            self.inv(),
        ensures
            owners_of(holders@) == self@.tickets,
    {
        let mut holders: Vec<PlayerId> = Vec::new();
        let mut ticket: u32 = 0;
        while ticket < self.no_of_tickets_sold
            invariant
                self.inv(),
                ticket <= self.no_of_tickets_sold,
                holders@.len() == ticket,
                forall|k: int| 0 <= k < ticket ==> holders@[k]@ == self@.tickets[k],
            decreases self.no_of_tickets_sold - ticket,
        {
            assert(self.ticket_ids@.dom().contains(ticket));
            assert(self@.tickets[ticket as int] == self.ticket_ids@[ticket]@);
            match self.ticket_ids.get(&ticket) {
                Some(owner) => {
                    holders.push(owner.clone());
                },
                None => {},
            }
            ticket += 1;
        }
        assert(owners_of(holders@) =~= self@.tickets);
        holders
    }

    /// Builds a round again from what it showed of itself and the owners of its
    /// tickets, as `get_lottery` and `ticket_holders` gave them. The answer is
    /// `None` exactly where the two do not fit together.
    pub fn restore(data: &LotteryData, holders: &Vec<PlayerId>) -> (restored: Option<Lottery>)
        ensures
            restored is Some <==> data.fits(owners_of(holders@)),
            restored matches Some(round) ==> round.inv() && round@ == data.described(
                owners_of(holders@),
            ),
    {
        let ghost owners = owners_of(holders@);
        if data.lottery_start_time > data.lottery_end_time {
            return None;
        }
        if holders.len() > u32::MAX as usize {
            return None;
        }
        if holders.len() as u32 != data.no_of_tickets_sold {
            return None;
        }
        let one: u32 = 1;
        let mut round = Lottery::open(data.id, data.lottery_start_time, data.lottery_end_time);
        let mut ticket: usize = 0;
        assert(owners.take(0) =~= Seq::<Seq<u8>>::empty());
        while ticket < holders.len()
            invariant
                ticket <= holders@.len() <= u32::MAX,
                one == 1,
                owners == owners_of(holders@),
                data.lottery_start_time <= data.lottery_end_time,
                round.inv(),
                round@ == (LotteryView {
                    winner: nobody(),
                    winning_ticket: 0,
                    amount_in_lottery: 0,
                    state: LotteryState::Active,
                    ..data.described(owners.take(ticket as int))
                }),
            decreases holders@.len() - ticket,
        {
            let ghost sold = round@.tickets;
            let issued = round.register_tickets(&holders[ticket], &one, data.lottery_start_time);
            match issued {
                Ok(_) => {},
                Err(_) => {
                    return None;
                },
            }
            assert(sold + batch(owners[ticket as int], 1) =~= owners.take(ticket + 1));
            ticket += 1;
        }
        assert(owners.take(ticket as int) =~= owners);
        proof {
            round.lemma_players();
        }
        if round.no_of_players != data.no_of_players {
            return None;
        }
        if data.lottery_state != LotteryState::Active {
            if data.winning_ticket >= data.no_of_tickets_sold {
                return None;
            }
        }
        if data.lottery_state != LotteryState::Closed {
            if !data.winner.same(&round.winner) {
                return None;
            }
        }
        if data.lottery_state == LotteryState::Closed {
            assert(round.ticket_ids@.dom().contains(data.winning_ticket));
            assert(round@.tickets[data.winning_ticket as int]
                == round.ticket_ids@[data.winning_ticket]@);
            match round.ticket_ids.get(&data.winning_ticket) {
                Some(owner) => {
                    if !owner.same(&data.winner) {
                        return None;
                    }
                },
                None => {
                    return None;
                },
            }
        }
        let ghost built = round;
        round.winner = data.winner.clone();
        round.winning_ticket = data.winning_ticket;
        round.amount_in_lottery = data.amount_in_lottery;
        round.lottery_state = data.lottery_state;
        proof {
            assert(round@.tickets =~= built@.tickets);
            assert(round.player_ticket_count() =~= built.player_ticket_count());
        }
        Some(round)
    }

    /// What the round shows of itself.
    pub fn get_lottery(&self) -> (data: LotteryData)
        requires
            self.inv(),
        ensures
            data.shows(self@),
    {
        proof {
            self.lemma_players();
        }
        LotteryData {
            id: self.id,
            winner: self.winner.clone(),
            no_of_tickets_sold: self.no_of_tickets_sold,
            no_of_players: self.no_of_players,
            winning_ticket: self.winning_ticket,
            amount_in_lottery: self.amount_in_lottery,
            lottery_start_time: self.lottery_start_time,
            lottery_end_time: self.lottery_end_time,
            lottery_state: self.lottery_state,
        }
    }
}

} // verus!
