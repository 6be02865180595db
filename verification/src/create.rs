use vstd::prelude::*;
use crate::error::RaffleError;
use crate::events::RaffleCreated;
use crate::identity::Identity;
use crate::types::{Counter, RaffleAccount, RaffleStatus, RaffleView};
use crate::utils::{scale_price, scaled};

verus! {

/// Why a raffle with these terms cannot be created at time `now`, with the
/// counter standing at `next_id`, or `None` where it can. The tests are
/// made in this order, and the first that fails decides.
pub open spec fn creation_refusal(
    selling_price: u64,
    ticket_price: u64,
    min_tickets: u32,
    max_tickets: u32,
    deadline: i64,
    now: i64,
    next_id: u64,
) -> Option<RaffleError> {
    if selling_price == 0 {
        Some(RaffleError::InvalidPrice)
    } else if ticket_price == 0 {
        Some(RaffleError::InvalidPrice)
    } else if min_tickets == 0 {
        Some(RaffleError::InvalidTicketCount)
    } else if max_tickets < min_tickets {
        Some(RaffleError::InvalidTicketCount)
    } else if deadline <= now {
        Some(RaffleError::InvalidDeadline)
    } else if scaled(selling_price) > u64::MAX {
        Some(RaffleError::Overflow)
    } else if scaled(ticket_price) > u64::MAX {
        Some(RaffleError::Overflow)
    } else if next_id == u64::MAX {
        Some(RaffleError::Overflow)
    } else {
        None
    }
}

/// The raffle that creation yields: active, with no buyer, no entry and no
/// money yet, and both prices in the fixed-point unit.
pub open spec fn new_raffle(
    raffle_id: u64,
    seller: Identity,
    payment_mint: Identity,
    item_name: Seq<char>,
    item_description: Seq<char>,
    item_image_uri: Seq<char>,
    selling_price: u64,
    ticket_price: u64,
    min_tickets: u32,
    max_tickets: u32,
    deadline: i64,
) -> RaffleView {
    RaffleView {
        raffle_id,
        seller,
        payment_mint,
        item_name,
        item_description,
        item_image_uri,
        selling_price: scaled(selling_price) as u64,
        ticket_price: scaled(ticket_price) as u64,
        min_tickets,
        max_tickets,
        deadline,
        participants: Seq::empty(),
        total_entries: 0,
        total_collected: 0,
        progress: 0,
        is_sold_out: false,
        status: RaffleStatus::Active,
        winner: None,
        claimed: false,
        randomness_account: None,
        product_delivered_status: None,
        tracking_info: None,
        shipped_at: None,
        dispute_deadline: None,
    }
}

/// Creates a raffle at time `now` and gives it the next identifier of
/// `counter`.
///
/// The terms are refused for the reasons and in the order that
/// [`creation_refusal`] gives; the counter then stays where it is.
/// Nothing else creates a raffle.
pub fn create_raffle(
    counter: &mut Counter,
    seller: Identity,
    payment_mint: Identity,
    item_name: String,
    item_description: String,
    item_image_uri: String,
    selling_price: u64,
    ticket_price: u64,
    min_tickets: u32,
    max_tickets: u32,
    deadline: i64,
    now: i64,
) -> (created: Result<(RaffleAccount, RaffleCreated), RaffleError>)
    ensures
        match creation_refusal(
            selling_price,
            ticket_price,
            min_tickets,
            max_tickets,
            deadline,
            now,
            old(counter).counter,
        ) {
            Some(e) => {
                &&& created == Err::<(RaffleAccount, RaffleCreated), RaffleError>(e)
                &&& *final(counter) == *old(counter)
            },
            None => {
                &&& created matches Ok((raffle, notice))
                &&& raffle@ =~= new_raffle(
                    old(counter).counter,
                    seller,
                    payment_mint,
                    item_name@,
                    item_description@,
                    item_image_uri@,
                    selling_price,
                    ticket_price,
                    min_tickets,
                    max_tickets,
                    deadline,
                )
                &&& notice == (RaffleCreated {
                    raffle: old(counter).counter,
                    seller,
                    ticket_price: scaled(ticket_price) as u64,
                    deadline,
                })
                &&& final(counter).counter == old(counter).counter + 1
            },
        },
        created matches Ok((raffle, _)) ==> {
            &&& raffle.wf()
            &&& raffle.total_entries == 0
            &&& raffle.total_collected == 0
            &&& raffle.status == RaffleStatus::Active
            &&& !raffle.is_sold_out
        },
{
    if selling_price == 0 {
        return Err(RaffleError::InvalidPrice);
    }
    if ticket_price == 0 {
        return Err(RaffleError::InvalidPrice);
    }
    if min_tickets == 0 {
        return Err(RaffleError::InvalidTicketCount);
    }
    if max_tickets < min_tickets {
        return Err(RaffleError::InvalidTicketCount);
    }
    if deadline <= now {
        return Err(RaffleError::InvalidDeadline);
    }
    let selling_price_scaled: u64 = match scale_price(selling_price) {
        Ok(p) => p,
        Err(e) => { return Err(e); },
    };
    let ticket_price_scaled: u64 = match scale_price(ticket_price) {
        Ok(p) => p,
        Err(e) => { return Err(e); },
    };
    let raffle_id: u64 = match counter.next() {
        Ok(id) => id,
        Err(e) => { return Err(e); },
    };
    let raffle = RaffleAccount {
        raffle_id,
        seller,
        payment_mint,
        item_name,
        item_description,
        item_image_uri,
        selling_price: selling_price_scaled,
        ticket_price: ticket_price_scaled,
        min_tickets,
        max_tickets,
        deadline,
        participants: Vec::new(),
        total_entries: 0,
        total_collected: 0,
        progress: 0,
        is_sold_out: false,
        status: RaffleStatus::Active,
        winner: None,
        claimed: false,
        randomness_account: None,
        product_delivered_status: None,
        tracking_info: None,
        shipped_at: None,
        dispute_deadline: None,
    };
    let notice = RaffleCreated {
        raffle: raffle_id,
        seller,
        ticket_price: ticket_price_scaled,
        deadline,
    };
    Ok((raffle, notice))
}

} // verus!
