use vstd::prelude::*;
use crate::error::RaffleError;
use crate::events::TicketsBought;
use crate::identity::Identity;
use crate::types::{
    lemma_progress_is_percentage, progress_of, RaffleAccount, RaffleStatus, RaffleView,
    MAX_PARTICIPANTS,
};

verus! {

/// Why a purchase of `num_tickets` tickets at time `now` is refused before
/// any money moves, or `None` where it may go ahead. The tests are made in
/// this order, and the first that fails decides.
pub open spec fn purchase_refusal(r: RaffleView, num_tickets: u8, now: i64) -> Option<RaffleError> {
    if r.participants.len() >= MAX_PARTICIPANTS {
        Some(RaffleError::RaffleFull)
    } else if r.status != RaffleStatus::Active {
        Some(RaffleError::RaffleNotActive)
    } else if num_tickets == 0 {
        Some(RaffleError::InvalidTicketCount)
    } else if now >= r.deadline {
        Some(RaffleError::DeadlinePassed)
    } else if r.is_sold_out {
        Some(RaffleError::TicketsAlreadySold)
    } else if r.total_entries + num_tickets > u64::MAX {
        Some(RaffleError::Overflow)
    } else if r.total_entries + num_tickets > r.max_tickets {
        Some(RaffleError::MaxTicketsReached)
    } else if purchase_price(r, num_tickets) > u64::MAX {
        Some(RaffleError::Overflow)
    } else {
        None
    }
}

/// What `num_tickets` tickets cost.
pub open spec fn purchase_price(r: RaffleView, num_tickets: u8) -> int {
    num_tickets * r.ticket_price
}

/// The raffle after `buyer` has paid for `num_tickets` tickets.
pub open spec fn after_purchase(r: RaffleView, buyer: Identity, num_tickets: u8) -> RaffleView {
    let entries = r.total_entries + num_tickets;
    RaffleView {
        participants: if r.participants.contains(buyer) {
            r.participants
        } else {
            r.participants.push(buyer)
        },
        total_entries: entries as u64,
        total_collected: (r.total_collected + purchase_price(r, num_tickets)) as u64,
        is_sold_out: r.is_sold_out || entries >= r.max_tickets,
        progress: progress_of(entries, r.max_tickets as int) as u32,
        ..r
    }
}

/// The outcome of a purchase: the raffle that results, or the reason for
/// which nothing was sold.
pub open spec fn purchase(r: RaffleView, buyer: Identity, num_tickets: u8, now: i64) -> Result<
    RaffleView,
    RaffleError,
> {
    match purchase_refusal(r, num_tickets, now) {
        Some(e) => Err(e),
        None => if r.total_collected + purchase_price(r, num_tickets) > u64::MAX {
            Err(RaffleError::Overflow)
        } else {
            Ok(after_purchase(r, buyer, num_tickets))
        },
    }
}

/// The notice that goes out for a purchase that led to the raffle `next`.
pub open spec fn purchase_notice(next: RaffleView, buyer: Identity, num_tickets: u8) -> TicketsBought {
    TicketsBought {
        buyer,
        raffle: next.raffle_id,
        number_of_tickets_bought: num_tickets,
        total_tickets_now: next.total_entries,
        total_participants_now: next.participants.len() as u32,
    }
}

impl RaffleAccount {
    /// Tells whether `who` holds a participant slot.
    pub fn has_participant(&self, who: &Identity) -> (found: bool)
        ensures
            found == self@.participants.contains(*who),
    {
        let mut i: usize = 0;
        while i < self.participants.len()
            invariant
                i <= self.participants.len(),
                forall|k: int| 0 <= k < i ==> self.participants@[k] != *who,
            decreases self.participants.len() - i,
        {
            if self.participants[i] == *who {
                return true;
            }
            i += 1;
        }
        false
    }
}

/// Validates a purchase and names its price, without changing the raffle.
///
/// This is the amount that the buyer has to move into escrow before
/// [`buy_tickets`] records the purchase.
pub fn quote_purchase(raffle: &RaffleAccount, num_tickets: u8, now: i64) -> (quote: Result<
    u64,
    RaffleError,
>)
    ensures
        match purchase_refusal(raffle@, num_tickets, now) {
            Some(e) => quote == Err::<u64, RaffleError>(e),
            None => quote == Ok::<u64, RaffleError>(purchase_price(raffle@, num_tickets) as u64),
        },
{
    if raffle.participants.len() >= MAX_PARTICIPANTS {
        return Err(RaffleError::RaffleFull);
    }
    if raffle.status != RaffleStatus::Active {
        return Err(RaffleError::RaffleNotActive);
    }
    if num_tickets == 0 {
        return Err(RaffleError::InvalidTicketCount);
    }
    if now >= raffle.deadline {
        return Err(RaffleError::DeadlinePassed);
    }
    if raffle.is_sold_out {
        return Err(RaffleError::TicketsAlreadySold);
    }
    let new_total_entries: u64 = match raffle.total_entries.checked_add(num_tickets as u64) {
        Some(n) => n,
        None => { return Err(RaffleError::Overflow); },
    };
    if new_total_entries > raffle.max_tickets as u64 {
        return Err(RaffleError::MaxTicketsReached);
    }
    match (num_tickets as u64).checked_mul(raffle.ticket_price) {
        Some(price) => Ok(price),
        None => Err(RaffleError::Overflow),
    }
}

/// Records that `buyer` bought `num_tickets` tickets at time `now`.
///
/// The purchase is refused, and nothing changes, for the reasons and in the
/// order that [`purchase_refusal`] gives, and after those where the money
/// collected would no longer fit. Otherwise the buyer takes a participant
/// slot unless they hold one already, the entries and the money collected
/// grow, and the raffle is sold out once the entries reach the cap.
///
/// A purchase that is refused marks nothing on the raffle either: one that
/// comes at the deadline or after it leaves the status as it is, so that
/// the draw, which asks for an active raffle, can still be made.
///
/// The caller moves the price that [`quote_purchase`] names into escrow
/// first, and calls this only once that transfer has gone through.
pub fn buy_tickets(raffle: &mut RaffleAccount, buyer: Identity, num_tickets: u8, now: i64) -> (sold:
    Result<TicketsBought, RaffleError>)
    ensures
        match purchase(old(raffle)@, buyer, num_tickets, now) {
            Ok(next) => final(raffle)@ =~= next && sold == Ok::<TicketsBought, RaffleError>(
                purchase_notice(next, buyer, num_tickets),
            ),
            Err(e) => *final(raffle) == *old(raffle) && sold == Err::<TicketsBought, RaffleError>(
                e,
            ),
        },
        old(raffle).wf() ==> final(raffle).wf(),
        old(raffle).is_sold_out ==> final(raffle).is_sold_out,
{
    let total_price: u64 = match quote_purchase(raffle, num_tickets, now) {
        Ok(price) => price,
        Err(e) => { return Err(e); },
    };
    let total_collected: u64 = match raffle.total_collected.checked_add(total_price) {
        Some(c) => c,
        None => { return Err(RaffleError::Overflow); },
    };
    let total_entries: u64 = raffle.total_entries + num_tickets as u64;
    let progress: u32 = match RaffleAccount::calculate_progress(total_entries, raffle.max_tickets) {
        Ok(p) => p,
        Err(e) => { return Err(e); },
    };
    proof {
        if raffle.wf() {
            lemma_purchase_keeps_wf(raffle@, buyer, num_tickets, now);
        }
    }
    if !raffle.has_participant(&buyer) {
        raffle.participants.push(buyer);
    }
    raffle.total_collected = total_collected;
    raffle.total_entries = total_entries;
    if total_entries >= raffle.max_tickets as u64 {
        raffle.is_sold_out = true;
    }
    raffle.progress = progress;
    Ok(
        TicketsBought {
            buyer,
            raffle: raffle.raffle_id,
            number_of_tickets_bought: num_tickets,
            total_tickets_now: raffle.total_entries,
            total_participants_now: raffle.participants.len() as u32,
        },
    )
}

/// A purchase that goes through leaves a well-formed raffle well-formed.
pub proof fn lemma_purchase_keeps_wf(r: RaffleView, buyer: Identity, num_tickets: u8, now: i64)
    requires
        r.wf(),
        purchase(r, buyer, num_tickets, now) is Ok,
    ensures
        after_purchase(r, buyer, num_tickets).wf(),
{
    let next = after_purchase(r, buyer, num_tickets);
    lemma_progress_is_percentage(r.total_entries + num_tickets, r.max_tickets as int);
    assert((r.total_entries + num_tickets) * r.ticket_price == r.total_entries * r.ticket_price
        + num_tickets * r.ticket_price) by (nonlinear_arith);
    if !r.participants.contains(buyer) {
        assert forall|i: int, j: int|
            0 <= i < next.participants.len() && 0 <= j < next.participants.len() && i != j implies next.participants[i]
            != next.participants[j] by {
            if i < r.participants.len() {
                assert(r.participants.contains(r.participants[i]));
            }
            if j < r.participants.len() {
                assert(r.participants.contains(r.participants[j]));
            }
        }
    }
    if r.winner is Some {
        let w = r.winner->Some_0;
        let k = choose|k: int| 0 <= k < r.participants.len() && r.participants[k] == w;
        assert(next.participants[k] == w);
    }
}

} // verus!
