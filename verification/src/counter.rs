use vstd::prelude::*;
use crate::error::RaffleError;
use crate::types::Counter;

verus! {

/// A counter that has issued no identifier yet.
pub fn initialise_counter() -> (counter: Counter)
    ensures
        counter.counter == 0,
{
    Counter { counter: 0 }
}

impl Counter {
    /// Issues the next identifier: the value the counter stands at, which
    /// then moves on by one. At the largest value nothing is issued and
    /// the counter stays where it is, so no identifier is ever issued twice.
    pub fn next(&mut self) -> (id: Result<u64, RaffleError>)
        ensures
            old(self).counter < u64::MAX ==> id == Ok::<u64, RaffleError>(old(self).counter)
                && final(self).counter == old(self).counter + 1,
            old(self).counter == u64::MAX ==> id == Err::<u64, RaffleError>(RaffleError::Overflow)
                && *final(self) == *old(self),
    {
        match self.counter.checked_add(1) {
            Some(following) => {
                let issued = self.counter;
                self.counter = following;
                Ok(issued)
            },
            None => Err(RaffleError::Overflow),
        }
    }
}

} // verus!
