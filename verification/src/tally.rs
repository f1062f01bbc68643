//! Counting tickets: the registry of a round is a sequence of owners, one per
//! ticket in the order of issue, and what a player holds is the number of
//! places at which that player stands in it.

use vstd::prelude::*;

verus! {

/// How many of `tickets` belong to `owner`.
pub open spec fn count_of(tickets: Seq<Seq<u8>>, owner: Seq<u8>) -> nat
    decreases tickets.len(),
{
    if tickets.len() == 0 {
        0
    } else {
        count_of(tickets.drop_last(), owner) + if tickets.last() == owner {
            1nat
        } else {
            0nat
        }
    }
}

/// The tickets of one purchase: `count` tickets, all of `owner`.
pub open spec fn batch(owner: Seq<u8>, count: nat) -> Seq<Seq<u8>> {
    Seq::new(count, |i: int| owner)
}

/// One more ticket counts for its owner and for nobody else.
pub proof fn lemma_count_push(tickets: Seq<Seq<u8>>, ticket: Seq<u8>, owner: Seq<u8>)
    ensures
        count_of(tickets.push(ticket), owner) == count_of(tickets, owner) + if ticket == owner {
            1nat
        } else {
            0nat
        },
{
    assert(tickets.push(ticket).drop_last() =~= tickets);
}

/// A purchase adds its size to what the buyer holds and leaves what everybody
/// else holds as it was.
pub proof fn lemma_count_batch(tickets: Seq<Seq<u8>>, buyer: Seq<u8>, count: nat, owner: Seq<u8>)
    ensures
        count_of(tickets + batch(buyer, count), owner) == count_of(tickets, owner) + if buyer
            == owner {
            count
        } else {
            0nat
        },
    decreases count,
{
    if count == 0 {
        assert(tickets + batch(buyer, count) =~= tickets);
    } else {
        let fewer = (count - 1) as nat;
        lemma_count_batch(tickets, buyer, fewer, owner);
        lemma_count_push(tickets + batch(buyer, fewer), buyer, owner);
        assert((tickets + batch(buyer, fewer)).push(buyer) =~= tickets + batch(buyer, count));
    }
}

/// Nobody holds more tickets than were issued.
pub proof fn lemma_count_bounded(tickets: Seq<Seq<u8>>, owner: Seq<u8>)
    ensures
        count_of(tickets, owner) <= tickets.len(),
    decreases tickets.len(),
{
    if tickets.len() > 0 {
        lemma_count_bounded(tickets.drop_last(), owner);
    }
}

/// A player holds a ticket exactly when the player owns one of the tickets.
pub proof fn lemma_count_positive(tickets: Seq<Seq<u8>>, owner: Seq<u8>)
    ensures
        count_of(tickets, owner) > 0 <==> exists|k: int|
            0 <= k < tickets.len() && #[trigger] tickets[k] == owner,
    decreases tickets.len(),
{
    if tickets.len() > 0 {
        let front = tickets.drop_last();
        lemma_count_positive(front, owner);
        if count_of(tickets, owner) > 0 {
            if tickets.last() == owner {
                assert(tickets[tickets.len() - 1] == owner);
            } else {
                let k = choose|k: int| 0 <= k < front.len() && #[trigger] front[k] == owner;
                assert(tickets[k] == owner);
            }
        }
        if exists|k: int| 0 <= k < tickets.len() && #[trigger] tickets[k] == owner {
            let k = choose|k: int| 0 <= k < tickets.len() && #[trigger] tickets[k] == owner;
            if k < front.len() {
                assert(front[k] == owner);
            }
        }
    }
}

} // verus!
