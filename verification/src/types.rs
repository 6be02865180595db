use vstd::prelude::*;
use crate::identity::Identity;

verus! {

/// Most distinct buyers one raffle can hold.
pub const MAX_PARTICIPANTS: usize = 32;

/// Factor by which a price is scaled into the fixed-point unit it is stored in.
pub const PRICE_SCALE: u64 = 1_000_000;

/// Oracle data aged this many time units or more is refused.
pub const STALENESS_WINDOW: i64 = 60;

/// Time after shipment during which a dispute may be raised: thirty days.
pub const DISPUTE_WINDOW: i64 = 2_592_000;

/// Where a raffle stands in its life.
#[derive(Clone, Copy, Debug, PartialEq, Eq, Structural)]
pub enum RaffleStatus {
    Active,
    Drawing,
    Completed,
    Cancelled,
    Refunded,
    Ended,
}

/// Where the prize stands on its way to the winner.
///
/// `Disputed` and `Resolved` are reserved: no operation reaches them.
#[derive(Clone, Copy, Debug, PartialEq, Eq, Structural)]
pub enum DeliveryStatus {
    Pending,
    Shipped,
    Delivered,
    Disputed,
    Resolved,
}

/// What an oracle account reports: its last random value and the time at
/// which it was last updated.
#[derive(Clone, Copy, Debug, PartialEq, Eq, Structural)]
pub struct OracleReading {
    pub value: i128,
    pub last_update_timestamp: i64,
}

/// The single source of raffle identifiers.
#[derive(Clone, Copy, Debug, PartialEq, Eq, Structural)]
pub struct Counter {
    pub counter: u64,
}

/// The stored state of one raffle.
#[derive(Clone, Debug, PartialEq, Eq)]
pub struct RaffleAccount {
    pub raffle_id: u64,
    pub seller: Identity,
    pub payment_mint: Identity,
    pub item_name: String,
    pub item_description: String,
    pub item_image_uri: String,
    /// In the fixed-point unit.
    pub selling_price: u64,
    /// In the fixed-point unit.
    pub ticket_price: u64,
    pub min_tickets: u32,
    pub max_tickets: u32,
    pub deadline: i64,
    /// Distinct buyers, in the order in which they first bought.
    pub participants: Vec<Identity>,
    pub total_entries: u64,
    pub total_collected: u64,
    pub progress: u32,
    pub is_sold_out: bool,
    pub status: RaffleStatus,
    pub winner: Option<Identity>,
    /// Set once a winner has been recorded; it bars a second draw.
    pub claimed: bool,
    /// The oracle account that the draw consulted.
    pub randomness_account: Option<Identity>,
    /// `None` until a winner exists.
    pub product_delivered_status: Option<DeliveryStatus>,
    pub tracking_info: Option<String>,
    pub shipped_at: Option<i64>,
    pub dispute_deadline: Option<i64>,
}

/// The mathematical content of a [`RaffleAccount`].
#[verifier::ext_equal]
pub struct RaffleView {
    pub raffle_id: u64,
    pub seller: Identity,
    pub payment_mint: Identity,
    pub item_name: Seq<char>,
    pub item_description: Seq<char>,
    pub item_image_uri: Seq<char>,
    pub selling_price: u64,
    pub ticket_price: u64,
    pub min_tickets: u32,
    pub max_tickets: u32,
    pub deadline: i64,
    pub participants: Seq<Identity>,
    pub total_entries: u64,
    pub total_collected: u64,
    pub progress: u32,
    pub is_sold_out: bool,
    pub status: RaffleStatus,
    pub winner: Option<Identity>,
    pub claimed: bool,
    pub randomness_account: Option<Identity>,
    pub product_delivered_status: Option<DeliveryStatus>,
    pub tracking_info: Option<Seq<char>>,
    pub shipped_at: Option<i64>,
    pub dispute_deadline: Option<i64>,
}

/// The characters of an optional string.
pub open spec fn text_of(s: Option<String>) -> Option<Seq<char>> {
    match s {
        Some(t) => Some(t@),
        None => None,
    }
}

impl View for RaffleAccount {
    type V = RaffleView;

    open spec fn view(&self) -> RaffleView {
        RaffleView {
            raffle_id: self.raffle_id,
            seller: self.seller,
            payment_mint: self.payment_mint,
            item_name: self.item_name@,
            item_description: self.item_description@,
            item_image_uri: self.item_image_uri@,
            selling_price: self.selling_price,
            ticket_price: self.ticket_price,
            min_tickets: self.min_tickets,
            max_tickets: self.max_tickets,
            deadline: self.deadline,
            participants: self.participants@,
            total_entries: self.total_entries,
            total_collected: self.total_collected,
            progress: self.progress,
            is_sold_out: self.is_sold_out,
            status: self.status,
            winner: self.winner,
            claimed: self.claimed,
            randomness_account: self.randomness_account,
            product_delivered_status: self.product_delivered_status,
            tracking_info: text_of(self.tracking_info),
            shipped_at: self.shipped_at,
            dispute_deadline: self.dispute_deadline,
        }
    }
}

/// Share of the tickets sold, in percent, rounded down; a raffle without
/// tickets to sell stands at 0.
pub open spec fn progress_of(entries: int, max_tickets: int) -> int {
    if max_tickets <= 0 {
        0
    } else if entries >= max_tickets {
        100
    } else {
        entries * 100 / max_tickets
    }
}

/// The share of tickets sold is a percentage: it lies between 0 and 100, and
/// is 100 exactly when the entries have reached the cap.
pub proof fn lemma_progress_is_percentage(entries: int, max_tickets: int)
    requires
        0 <= entries,
    ensures
        0 <= progress_of(entries, max_tickets) <= 100,
        max_tickets > 0 ==> (progress_of(entries, max_tickets) == 100 <==> entries >= max_tickets),
{
    if max_tickets > 0 && entries < max_tickets {
        assert(0 <= entries * 100 / max_tickets < 100) by (nonlinear_arith)
            requires
                0 <= entries < max_tickets,
        ;
    }
}

impl RaffleView {
    /// What holds of every raffle that was created and then only touched by
    /// the operations of this library.
    pub open spec fn wf(self) -> bool {
        &&& self.selling_price > 0
        &&& self.ticket_price > 0
        &&& 0 < self.min_tickets <= self.max_tickets
        &&& self.participants.len() <= MAX_PARTICIPANTS
        &&& self.participants.no_duplicates()
        &&& self.participants.len() <= self.total_entries
        &&& (self.total_entries > 0 ==> self.participants.len() > 0)
        &&& self.total_entries <= self.max_tickets
        &&& self.total_collected == self.total_entries * self.ticket_price
        &&& self.progress == progress_of(self.total_entries as int, self.max_tickets as int)
        &&& (self.is_sold_out <==> self.total_entries >= self.max_tickets)
        &&& (self.claimed <==> self.winner is Some)
        &&& (self.winner matches Some(w) ==> self.participants.contains(w))
        &&& (self.randomness_account is Some <==> self.winner is Some)
        &&& (self.product_delivered_status is Some <==> self.winner is Some)
        &&& (self.shipped_at is Some <==> (self.product_delivered_status == Some(
            DeliveryStatus::Shipped,
        ) || self.product_delivered_status == Some(DeliveryStatus::Delivered)))
        &&& (self.dispute_deadline is Some <==> self.shipped_at is Some)
        &&& (self.shipped_at matches Some(at) ==> self.dispute_deadline == Some(
            (at + DISPUTE_WINDOW) as i64,
        ) && at + DISPUTE_WINDOW <= i64::MAX)
    }
}

impl RaffleAccount {
    /// See [`RaffleView::wf`].
    pub open spec fn wf(&self) -> bool {
        self@.wf()
    }
}

} // verus!
