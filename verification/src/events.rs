use vstd::prelude::*;
use crate::identity::Identity;

verus! {

/// Notice that a raffle was created.
#[derive(Clone, Copy, Debug, PartialEq, Eq)]
pub struct RaffleCreated {
    /// Identifier of the new raffle.
    pub raffle: u64,
    pub seller: Identity,
    /// In the fixed-point unit.
    pub ticket_price: u64,
    pub deadline: i64,
}

/// Notice that a buyer bought tickets.
#[derive(Clone, Copy, Debug, PartialEq, Eq)]
pub struct TicketsBought {
    pub buyer: Identity,
    /// Identifier of the raffle.
    pub raffle: u64,
    pub number_of_tickets_bought: u8,
    pub total_tickets_now: u64,
    pub total_participants_now: u32,
}

/// Notice that the seller sent the prize.
#[derive(Clone, Copy, Debug, PartialEq, Eq)]
pub struct ProductShipped {
    /// Identifier of the raffle.
    pub raffle: u64,
    pub winner: Identity,
    pub shipped_at: Option<i64>,
}

/// Notice that the prize reached the winner.
#[derive(Clone, Copy, Debug, PartialEq, Eq)]
pub struct ProductDelivered {
    /// Identifier of the raffle.
    pub raffle: u64,
    pub winner: Identity,
    pub delivered_at: Option<i64>,
}

} // verus!
