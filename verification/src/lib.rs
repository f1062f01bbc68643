//! A ticket lottery that runs in rounds: a registry opens one round at a time,
//! players buy numbered tickets, a seeded draw picks the winning ticket once the
//! round has ended, and the holder of that ticket claims half of the pool.

pub mod draw;
pub mod endpoints;
pub mod identity;
pub mod laws;
pub mod registry;
pub mod round;
pub mod tally;
pub mod types;
