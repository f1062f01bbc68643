//! The draw: from a seed of 32 bytes to the index of the winning ticket.
//!
//! The seed keys a ChaCha20 generator, and the first 64 bits that the generator
//! gives are reduced modulo the number of tickets. One seed and one number of
//! tickets therefore always give the same ticket.

use crate::types::LotteryError;
use rand_chacha::rand_core::RngCore;
use rand_chacha::rand_core::SeedableRng;
use rand_chacha::ChaCha20Rng;
use vstd::prelude::*;

verus! {

/// A seed is exactly this many bytes long.
pub const SEED_LENGTH: usize = 32;

/// The first 64 bits of the ChaCha20 key stream under the key `seed`, with block
/// counter and stream number zero, read as a little-endian number. Defined for
/// seeds of `SEED_LENGTH` bytes.
pub uninterp spec fn chacha20_first_u64(seed: Seq<u8>) -> u64;

/// `ChaCha20Rng::from_seed` followed by one `next_u64`: the generator is made
/// from the seed alone, so its first output is a function of the seed, and that
/// is all that is claimed of it.
#[verifier::external_body]
fn first_output(seed: &[u8]) -> (word: u64)
    requires
        seed@.len() == SEED_LENGTH,
    ensures
        word == chacha20_first_u64(seed@),
{
    let mut key = [0u8; 32];
    key.copy_from_slice(seed);
    ChaCha20Rng::from_seed(key).next_u64()
}

/// The ticket that a generator output selects among `tickets` tickets.
pub open spec fn selected_ticket(word: u64, tickets: u32) -> int {
    word as int % tickets as int
}

/// Reduces a generator output to a ticket index below `tickets`.
pub fn select_ticket(word: u64, tickets: u32) -> (ticket: u32)
    requires
        tickets > 0,
    ensures
        ticket == selected_ticket(word, tickets),
        ticket < tickets,
{
    let wide: u64 = tickets as u64;
    let index: u64 = word % wide;
    index as u32
}

/// Draws the winning ticket among `tickets` tickets from `seed`.
///
/// A seed of any other length than `SEED_LENGTH` is turned down with
/// `InvalidSeedLength`; every other seed selects a ticket.
pub fn draw_ticket(seed: &[u8], tickets: u32) -> (drawn: Result<u32, LotteryError>)
    requires
        tickets > 0,
    ensures
        seed@.len() != SEED_LENGTH ==> drawn == Err::<u32, LotteryError>(
            LotteryError::InvalidSeedLength,
        ),
        seed@.len() == SEED_LENGTH ==> drawn is Ok && drawn->Ok_0 == selected_ticket(
            chacha20_first_u64(seed@),
            tickets,
        ),
{
    if seed.len() != SEED_LENGTH {
        return Err(LotteryError::InvalidSeedLength);
    }
    let word = first_output(seed);
    Ok(select_ticket(word, tickets))
}

} // verus!
