use vstd::prelude::*;
use crate::create::{creation_refusal, new_raffle};
use crate::delivery::{delivery, shipment};
use crate::draw::{after_draw, draw, draw_refusal, draw_settled, winner_index};
use crate::error::RaffleError;
use crate::identity::Identity;
use crate::purchase::{after_purchase, lemma_purchase_keeps_wf, purchase};
use crate::types::{OracleReading, RaffleStatus, RaffleView, MAX_PARTICIPANTS};

verus! {

/// One call of `buy_tickets`.
pub struct Purchase {
    pub buyer: Identity,
    pub num_tickets: u8,
    pub now: i64,
}

/// One call of an operation on a raffle.
pub enum Operation {
    Buy { buyer: Identity, num_tickets: u8, now: i64 },
    Draw { now: i64, randomness_account: Identity, reading: Option<OracleReading> },
    Ship { tracking_info: Option<Seq<char>>, now: i64 },
    Deliver { tracking_info: Option<Seq<char>> },
}

/// The raffle after one operation: what the operation makes of it, or the
/// raffle as it was where the operation is refused.
pub open spec fn step(r: RaffleView, op: Operation) -> RaffleView {
    let outcome = match op {
        Operation::Buy { buyer, num_tickets, now } => purchase(r, buyer, num_tickets, now),
        Operation::Draw { now, randomness_account, reading } => draw(
            r,
            now,
            randomness_account,
            reading,
        ),
        Operation::Ship { tracking_info, now } => shipment(r, tracking_info, now),
        Operation::Deliver { tracking_info } => delivery(r, tracking_info),
    };
    match outcome {
        Ok(next) => next,
        Err(_) => r,
    }
}

/// The raffle after a run of operations, made in turn.
pub open spec fn run(r: RaffleView, ops: Seq<Operation>) -> RaffleView
    decreases ops.len(),
{
    if ops.len() == 0 {
        r
    } else {
        step(run(r, ops.drop_last()), ops.last())
    }
}

/// The raffle after a run of purchases, made in turn.
pub open spec fn after_purchases(r: RaffleView, purchases: Seq<Purchase>) -> RaffleView
    decreases purchases.len(),
{
    if purchases.len() == 0 {
        r
    } else {
        let p = purchases.last();
        after_purchase(after_purchases(r, purchases.drop_last()), p.buyer, p.num_tickets)
    }
}

/// Tells whether every purchase of a run goes through when they are made
/// in turn.
pub open spec fn all_go_through(r: RaffleView, purchases: Seq<Purchase>) -> bool
    decreases purchases.len(),
{
    if purchases.len() == 0 {
        true
    } else {
        let p = purchases.last();
        &&& all_go_through(r, purchases.drop_last())
        &&& purchase(after_purchases(r, purchases.drop_last()), p.buyer, p.num_tickets, p.now) is Ok
    }
}

/// The tickets bought over a run of purchases.
pub open spec fn tickets_bought(purchases: Seq<Purchase>) -> int
    decreases purchases.len(),
{
    if purchases.len() == 0 {
        0
    } else {
        tickets_bought(purchases.drop_last()) + purchases.last().num_tickets
    }
}

/// The buyers of a run of purchases.
pub open spec fn buyers(purchases: Seq<Purchase>) -> Set<Identity>
    decreases purchases.len(),
{
    if purchases.len() == 0 {
        Set::empty()
    } else {
        buyers(purchases.drop_last()).insert(purchases.last().buyer)
    }
}

/// Terms that creation accepts give a well-formed raffle that is active,
/// not sold out, and has no entry and no money yet.
pub proof fn lemma_new_raffle_is_fresh(
    raffle_id: u64,
    seller: Identity,
    payment_mint: Identity,
    item_name: Seq<char>,
    item_description: Seq<char>,
    item_image_uri: Seq<char>,
    selling_price: u64,
    ticket_price: u64,
    min_tickets: u32,
    max_tickets: u32,
    deadline: i64,
    now: i64,
)
    requires
        creation_refusal(
            selling_price,
            ticket_price,
            min_tickets,
            max_tickets,
            deadline,
            now,
            raffle_id,
        ) is None,
    ensures
        ({
            let r = new_raffle(
                raffle_id,
                seller,
                payment_mint,
                item_name,
                item_description,
                item_image_uri,
                selling_price,
                ticket_price,
                min_tickets,
                max_tickets,
                deadline,
            );
            &&& r.wf()
            &&& r.total_entries == 0
            &&& r.total_collected == 0
            &&& r.status == RaffleStatus::Active
            &&& !r.is_sold_out
        }),
{
}

/// Over any run of purchases that all go through, the entries grow by the
/// tickets bought and the money collected by their price; the ticket price
/// and the cap stay as they are, and the entries never pass the cap.
pub proof fn lemma_purchases_add_up(r: RaffleView, purchases: Seq<Purchase>)
    requires
        r.wf(),
        all_go_through(r, purchases),
    ensures
        ({
            let end = after_purchases(r, purchases);
            &&& end.wf()
            &&& end.ticket_price == r.ticket_price
            &&& end.max_tickets == r.max_tickets
            &&& end.total_entries == r.total_entries + tickets_bought(purchases)
            &&& end.total_collected == r.total_collected + tickets_bought(purchases)
                * r.ticket_price
            &&& end.total_entries <= end.max_tickets
        }),
    decreases purchases.len(),
{
    if purchases.len() > 0 {
        let before = after_purchases(r, purchases.drop_last());
        let p = purchases.last();
        lemma_purchases_add_up(r, purchases.drop_last());
        lemma_purchase_keeps_wf(before, p.buyer, p.num_tickets, p.now);
        assert((tickets_bought(purchases.drop_last()) + p.num_tickets) * r.ticket_price
            == tickets_bought(purchases.drop_last()) * r.ticket_price + p.num_tickets
            * r.ticket_price) by (nonlinear_arith);
    }
}

/// A raffle that starts without entries holds, after any run of purchases
/// that all go through, the sum of the tickets bought and the sum of what
/// they cost.
pub proof fn lemma_totals_are_sums(r: RaffleView, purchases: Seq<Purchase>)
    requires
        r.wf(),
        r.total_entries == 0,
        all_go_through(r, purchases),
    ensures
        after_purchases(r, purchases).total_entries == tickets_bought(purchases),
        after_purchases(r, purchases).total_collected == tickets_bought(purchases)
            * r.ticket_price,
{
    lemma_purchases_add_up(r, purchases);
}

/// A purchase that goes through gives the buyer exactly one participant
/// slot: the buyer holds a slot afterwards, those who held one keep it, in
/// the same order, and a buyer who held one already takes no second one.
pub proof fn lemma_buyer_holds_one_slot(r: RaffleView, buyer: Identity, num_tickets: u8, now: i64)
    requires
        r.participants.no_duplicates(),
        purchase(r, buyer, num_tickets, now) is Ok,
    ensures
        ({
            let next = after_purchase(r, buyer, num_tickets);
            &&& next.participants.no_duplicates()
            &&& next.participants.len() <= MAX_PARTICIPANTS
            &&& next.participants.contains(buyer)
            &&& next.participants.to_set() == r.participants.to_set().insert(buyer)
            &&& r.participants.contains(buyer) ==> next.participants == r.participants
            &&& !r.participants.contains(buyer) ==> next.participants == r.participants.push(buyer)
        }),
{
    let next = after_purchase(r, buyer, num_tickets);
    if r.participants.contains(buyer) {
        assert(r.participants.to_set().insert(buyer) =~= r.participants.to_set());
    } else {
        r.participants.lemma_push_to_set_commute(buyer);
        assert(next.participants[r.participants.len() as int] == buyer);
        assert forall|i: int, j: int|
            0 <= i < next.participants.len() && 0 <= j < next.participants.len() && i != j implies next.participants[i]
            != next.participants[j] by {
            if i < r.participants.len() {
                assert(r.participants.contains(r.participants[i]));
            }
            if j < r.participants.len() {
                assert(r.participants.contains(r.participants[j]));
            }
        }
    }
}

/// Buying twice gives the buyer no second slot: the second purchase leaves
/// the participants as the first left them.
pub proof fn lemma_second_purchase_takes_no_slot(
    r: RaffleView,
    buyer: Identity,
    first: u8,
    first_now: i64,
    second: u8,
    second_now: i64,
)
    requires
        r.participants.no_duplicates(),
        purchase(r, buyer, first, first_now) is Ok,
        purchase(after_purchase(r, buyer, first), buyer, second, second_now) is Ok,
    ensures
        after_purchase(after_purchase(r, buyer, first), buyer, second).participants
            == after_purchase(r, buyer, first).participants,
{
    lemma_buyer_holds_one_slot(r, buyer, first, first_now);
}

/// After any run of purchases that all go through, the participants are
/// those who held a slot before together with the buyers, each once, and
/// there are at most 32 of them.
pub proof fn lemma_participants_are_the_buyers(r: RaffleView, purchases: Seq<Purchase>)
    requires
        r.participants.no_duplicates(),
        r.participants.len() <= MAX_PARTICIPANTS,
        all_go_through(r, purchases),
    ensures
        ({
            let end = after_purchases(r, purchases);
            &&& end.participants.no_duplicates()
            &&& end.participants.to_set() == r.participants.to_set().union(buyers(purchases))
            &&& end.participants.len() == r.participants.to_set().union(buyers(purchases)).len()
            &&& end.participants.len() <= MAX_PARTICIPANTS
        }),
    decreases purchases.len(),
{
    if purchases.len() > 0 {
        let before = after_purchases(r, purchases.drop_last());
        let p = purchases.last();
        lemma_participants_are_the_buyers(r, purchases.drop_last());
        lemma_buyer_holds_one_slot(before, p.buyer, p.num_tickets, p.now);
        assert(r.participants.to_set().union(buyers(purchases.drop_last())).insert(p.buyer)
            =~= r.participants.to_set().union(buyers(purchases)));
    } else {
        assert(r.participants.to_set().union(buyers(purchases)) =~= r.participants.to_set());
    }
    after_purchases(r, purchases).participants.unique_seq_to_set();
}

/// No operation takes a well-formed raffle out of well-formedness.
pub proof fn lemma_step_keeps_wf(r: RaffleView, op: Operation)
    requires
        r.wf(),
    ensures
        step(r, op).wf(),
{
    match op {
        Operation::Buy { buyer, num_tickets, now } => {
            if purchase(r, buyer, num_tickets, now) is Ok {
                lemma_purchase_keeps_wf(r, buyer, num_tickets, now);
            }
        },
        Operation::Draw { now, randomness_account, reading } => {
            if draw(r, now, randomness_account, reading) is Ok {
                let value = reading->Some_0.value;
                lemma_winner_holds_a_slot(r, value, randomness_account);
            }
        },
        Operation::Ship { tracking_info, now } => {},
        Operation::Deliver { tracking_info } => {},
    }
}

/// No run of operations takes a well-formed raffle out of well-formedness.
pub proof fn lemma_run_keeps_wf(r: RaffleView, ops: Seq<Operation>)
    requires
        r.wf(),
    ensures
        run(r, ops).wf(),
    decreases ops.len(),
{
    if ops.len() > 0 {
        lemma_run_keeps_wf(r, ops.drop_last());
        lemma_step_keeps_wf(run(r, ops.drop_last()), ops.last());
    }
}

/// A raffle that is sold out stays sold out, whatever is done to it.
pub proof fn lemma_sold_out_is_final(r: RaffleView, ops: Seq<Operation>)
    requires
        r.is_sold_out,
    ensures
        run(r, ops).is_sold_out,
    decreases ops.len(),
{
    if ops.len() > 0 {
        lemma_sold_out_is_final(r, ops.drop_last());
    }
}

/// Over any run of operations the entries and the money collected never
/// go down, those who hold a participant slot keep it, and what was fixed
/// at creation stays as it was.
pub proof fn lemma_run_only_adds(r: RaffleView, ops: Seq<Operation>)
    requires
        r.wf(),
    ensures
        ({
            let end = run(r, ops);
            &&& end.total_entries >= r.total_entries
            &&& end.total_collected >= r.total_collected
            &&& r.participants.is_prefix_of(end.participants)
            &&& end.raffle_id == r.raffle_id
            &&& end.seller == r.seller
            &&& end.payment_mint == r.payment_mint
            &&& end.item_name == r.item_name
            &&& end.item_description == r.item_description
            &&& end.item_image_uri == r.item_image_uri
            &&& end.selling_price == r.selling_price
            &&& end.ticket_price == r.ticket_price
            &&& end.min_tickets == r.min_tickets
            &&& end.max_tickets == r.max_tickets
            &&& end.deadline == r.deadline
        }),
    decreases ops.len(),
{
    if ops.len() > 0 {
        lemma_run_only_adds(r, ops.drop_last());
        lemma_run_keeps_wf(r, ops.drop_last());
    }
}

/// A winner, once recorded, stays the winner, whatever is done to the
/// raffle.
pub proof fn lemma_winner_is_final(r: RaffleView, ops: Seq<Operation>)
    requires
        r.wf(),
        r.winner is Some,
    ensures
        run(r, ops).winner == r.winner,
    decreases ops.len(),
{
    if ops.len() > 0 {
        lemma_winner_is_final(r, ops.drop_last());
        lemma_run_keeps_wf(r, ops.drop_last());
    }
}

/// A draw on a raffle whose winner was recorded already fails and leaves
/// the raffle, its winner with it, as it was; where nothing else stands in
/// the way it fails with `AlreadyClaimed`.
pub proof fn lemma_second_draw_fails(
    r: RaffleView,
    now: i64,
    randomness_account: Identity,
    reading: Option<OracleReading>,
    after: RaffleView,
    drawn: Result<Identity, RaffleError>,
)
    requires
        r.claimed,
        draw_settled(r, now, randomness_account, reading, after, drawn),
    ensures
        drawn is Err,
        after == r,
        after.winner == r.winner,
        r.status == RaffleStatus::Active && r.participants.len() > 0 && now > r.deadline
            ==> drawn == Err::<Identity, RaffleError>(RaffleError::AlreadyClaimed),
{
}

/// The winning slot is one of the slots there are.
pub proof fn lemma_winner_index_in_range(value: i128, slots: nat)
    requires
        slots > 0,
    ensures
        winner_index(value, slots) < slots,
{
}

/// The winner that a draw records holds a participant slot: the one in
/// slot `winner_index`.
pub proof fn lemma_winner_holds_a_slot(r: RaffleView, value: i128, randomness_account: Identity)
    requires
        r.participants.len() > 0,
    ensures
        after_draw(r, value, randomness_account).winner matches Some(w) && r.participants.contains(w)
            && w == r.participants[winner_index(value, r.participants.len()) as int],
{
    let i = winner_index(value, r.participants.len()) as int;
    assert(0 <= i < r.participants.len());
    assert(r.participants[i] == r.participants[i]);
}

/// The winner depends on the oracle value and on the participants, and on
/// nothing else: two draws on the same value and the same participants
/// pick the same winner.
pub proof fn lemma_draw_is_reproducible(
    a: RaffleView,
    b: RaffleView,
    value: i128,
    account_a: Identity,
    account_b: Identity,
)
    requires
        a.participants == b.participants,
    ensures
        after_draw(a, value, account_a).winner == after_draw(b, value, account_b).winner,
{
}

/// An oracle value from 0 upwards is reduced as it stands: the winning
/// slot is the value modulo the number of slots.
pub proof fn lemma_whole_value_is_reduced(value: i128, slots: nat)
    requires
        0 <= value,
        slots > 0,
    ensures
        winner_index(value, slots) == (value as int) % (slots as int),
{
}

/// An oracle value below 0 is reduced as the unsigned integer that its 128
/// bits spell: the value plus 2^128.
pub proof fn lemma_negative_value_is_read_unsigned(value: i128, slots: nat)
    requires
        value < 0,
        slots > 0,
    ensures
        winner_index(value, slots) == (value + u128::MAX + 1) % (slots as int),
{
}

} // verus!
