use vstd::prelude::*;
use crate::error::RaffleError;
use crate::types::{lemma_progress_is_percentage, progress_of, RaffleAccount, PRICE_SCALE};

verus! {

impl RaffleAccount {
    /// Share of the tickets sold, in percent: 100 once `entries` has reached
    /// `max_tickets`, the percentage rounded down before that, and 0 for a
    /// raffle that has no tickets to sell. It never fails.
    pub fn calculate_progress(entries: u64, max_tickets: u32) -> (progress: Result<
        u32,
        RaffleError,
    >)
        ensures
            progress == Ok::<u32, RaffleError>(progress_of(entries as int, max_tickets as int) as u32),
            0 <= progress_of(entries as int, max_tickets as int) <= 100,
    {
        proof {
            lemma_progress_is_percentage(entries as int, max_tickets as int);
        }
        if max_tickets == 0 {
            return Ok(0);
        }
        if entries >= max_tickets as u64 {
            return Ok(100);
        }
        let share: u64 = entries * 100 / (max_tickets as u64);
        Ok(share as u32)
    }
}

/// A price in the fixed-point unit: `price` times a million.
pub open spec fn scaled(price: u64) -> int {
    price * PRICE_SCALE
}

/// Scales a price into the fixed-point unit, or reports that the scaled
/// price does not fit.
pub fn scale_price(price: u64) -> (scaled_price: Result<u64, RaffleError>)
    ensures
        scaled(price) <= u64::MAX ==> scaled_price == Ok::<u64, RaffleError>(scaled(price) as u64),
        scaled(price) > u64::MAX ==> scaled_price == Err::<u64, RaffleError>(RaffleError::Overflow),
{
    match price.checked_mul(PRICE_SCALE) {
        Some(p) => Ok(p),
        None => Err(RaffleError::Overflow),
    }
}

} // verus!
