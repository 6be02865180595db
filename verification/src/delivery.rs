use vstd::prelude::*;
use crate::error::RaffleError;
use crate::events::{ProductDelivered, ProductShipped};
use crate::types::{text_of, DeliveryStatus, RaffleAccount, RaffleView, DISPUTE_WINDOW};

verus! {

/// The outcome of marking the prize as shipped at time `now`: the raffle
/// that results, or the reason for which nothing was marked. A prize can be
/// shipped once there is a winner to ship it to, and the time for raising a
/// dispute then runs for thirty days.
pub open spec fn shipment(r: RaffleView, tracking_info: Option<Seq<char>>, now: i64) -> Result<
    RaffleView,
    RaffleError,
> {
    if r.winner is None {
        Err(RaffleError::RaffleNotCompleted)
    } else if now + DISPUTE_WINDOW > i64::MAX {
        Err(RaffleError::Overflow)
    } else {
        Ok(
            RaffleView {
                product_delivered_status: Some(DeliveryStatus::Shipped),
                tracking_info,
                shipped_at: Some(now),
                dispute_deadline: Some((now + DISPUTE_WINDOW) as i64),
                ..r
            },
        )
    }
}

/// The outcome of marking the prize as delivered: the raffle that results,
/// or the reason for which nothing was marked. Only a prize that is on its
/// way can arrive.
pub open spec fn delivery(r: RaffleView, tracking_info: Option<Seq<char>>) -> Result<
    RaffleView,
    RaffleError,
> {
    if r.winner is None {
        Err(RaffleError::RaffleNotCompleted)
    } else if r.product_delivered_status != Some(DeliveryStatus::Shipped) {
        Err(RaffleError::InvalidStatus)
    } else {
        Ok(
            RaffleView {
                product_delivered_status: Some(DeliveryStatus::Delivered),
                tracking_info,
                ..r
            },
        )
    }
}

/// Marks the prize as shipped at time `now`, with the tracking information
/// given, if any.
///
/// Fails with `RaffleNotCompleted` while there is no winner, and with
/// `Overflow` where the end of the dispute window cannot be represented;
/// nothing changes then.
pub fn mark_shipped(raffle: &mut RaffleAccount, tracking_info: Option<String>, now: i64) -> (shipped:
    Result<ProductShipped, RaffleError>)
    ensures
        match shipment(old(raffle)@, text_of(tracking_info), now) {
            Ok(next) => {
                &&& final(raffle)@ =~= next
                &&& next.winner matches Some(winner)
                &&& shipped == Ok::<ProductShipped, RaffleError>(
                    ProductShipped { raffle: next.raffle_id, winner, shipped_at: Some(now) },
                )
            },
            Err(e) => *final(raffle) == *old(raffle) && shipped == Err::<
                ProductShipped,
                RaffleError,
            >(e),
        },
        old(raffle).wf() ==> final(raffle).wf(),
        old(raffle).is_sold_out ==> final(raffle).is_sold_out,
{
    let winner = match raffle.winner {
        Some(w) => w,
        None => { return Err(RaffleError::RaffleNotCompleted); },
    };
    let dispute_deadline: i64 = match now.checked_add(DISPUTE_WINDOW) {
        Some(d) => d,
        None => { return Err(RaffleError::Overflow); },
    };
    raffle.tracking_info = tracking_info;
    raffle.product_delivered_status = Some(DeliveryStatus::Shipped);
    raffle.shipped_at = Some(now);
    raffle.dispute_deadline = Some(dispute_deadline);
    Ok(ProductShipped { raffle: raffle.raffle_id, winner, shipped_at: Some(now) })
}

/// Marks the prize as delivered at time `now`, and replaces the tracking
/// information by what is given.
///
/// Fails with `RaffleNotCompleted` while there is no winner, and with
/// `InvalidStatus` unless the prize is marked as shipped; nothing changes
/// then.
pub fn mark_delivered(raffle: &mut RaffleAccount, tracking_info: Option<String>, now: i64) -> (delivered:
    Result<ProductDelivered, RaffleError>)
    ensures
        match delivery(old(raffle)@, text_of(tracking_info)) {
            Ok(next) => {
                &&& final(raffle)@ =~= next
                &&& next.winner matches Some(winner)
                &&& delivered == Ok::<ProductDelivered, RaffleError>(
                    ProductDelivered { raffle: next.raffle_id, winner, delivered_at: Some(now) },
                )
            },
            Err(e) => *final(raffle) == *old(raffle) && delivered == Err::<
                ProductDelivered,
                RaffleError,
            >(e),
        },
        old(raffle).wf() ==> final(raffle).wf(),
        old(raffle).is_sold_out ==> final(raffle).is_sold_out,
{
    let winner = match raffle.winner {
        Some(w) => w,
        None => { return Err(RaffleError::RaffleNotCompleted); },
    };
    match raffle.product_delivered_status {
        Some(DeliveryStatus::Shipped) => {},
        _ => { return Err(RaffleError::InvalidStatus); },
    }
    raffle.tracking_info = tracking_info;
    raffle.product_delivered_status = Some(DeliveryStatus::Delivered);
    Ok(ProductDelivered { raffle: raffle.raffle_id, winner, delivered_at: Some(now) })
}

} // verus!
