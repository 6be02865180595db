use vstd::prelude::*;
use crate::error::RaffleError;
use crate::identity::Identity;
use crate::oracle::{carries_feed_mark, parse_pull_feed};
use crate::types::{
    DeliveryStatus, OracleReading, RaffleAccount, RaffleStatus, RaffleView, STALENESS_WINDOW,
};

verus! {

/// The random number that a draw takes from an oracle value: the whole
/// value, read as an unsigned integer of 128 bits. A value from 0 upwards
/// is taken as it is, and one below 0 stands for itself plus 2^128.
pub open spec fn random_number(value: i128) -> nat {
    ((value as int) % (u128::MAX + 1)) as nat
}

/// The slot that wins among `slots` participant slots: the random number
/// modulo their count.
pub open spec fn winner_index(value: i128, slots: nat) -> nat {
    random_number(value) % slots
}

/// Reading an oracle value as an unsigned integer of 128 bits gives its
/// random number.
pub proof fn lemma_random_number_is_whole_value(value: i128)
    ensures
        (value as u128) as nat == random_number(value),
        value >= 0 ==> random_number(value) == value,
{
    let unsigned = value as u128;
    if value >= 0 {
        assert(unsigned == value) by (bit_vector)
            requires
                value >= 0,
                unsigned == value as u128,
        ;
    } else {
        let lifted = (value + i128::MAX + 1) as u128;
        assert(unsigned == lifted + 0x8000_0000_0000_0000_0000_0000_0000_0000u128) by (bit_vector)
            requires
                value < 0,
                unsigned == value as u128,
                lifted == ((value + 0x7fff_ffff_ffff_ffff_ffff_ffff_ffff_ffffi128) + 1i128) as u128,
        ;
    }
}

/// Why a draw at time `now` is refused before the oracle is consulted, or
/// `None` where it may go ahead. The tests are made in this order, and the
/// first that fails decides.
pub open spec fn draw_refusal(r: RaffleView, now: i64) -> Option<RaffleError> {
    if r.status != RaffleStatus::Active {
        Some(RaffleError::RaffleNotActive)
    } else if r.participants.len() == 0 {
        Some(RaffleError::NoParticipants)
    } else if now <= r.deadline {
        Some(RaffleError::DeadlineNotReached)
    } else if r.claimed {
        Some(RaffleError::AlreadyClaimed)
    } else {
        None
    }
}

/// Age of an oracle reading at time `now`.
pub open spec fn staleness(now: i64, reading: OracleReading) -> int {
    now - reading.last_update_timestamp
}

/// The raffle after a draw on the oracle value `value`, which was read
/// from the account `randomness_account`.
pub open spec fn after_draw(r: RaffleView, value: i128, randomness_account: Identity) -> RaffleView {
    RaffleView {
        winner: Some(r.participants[winner_index(value, r.participants.len()) as int]),
        claimed: true,
        product_delivered_status: Some(DeliveryStatus::Pending),
        randomness_account: Some(randomness_account),
        ..r
    }
}

/// The outcome of a draw at time `now`, where `reading` is what the oracle
/// account held, or `None` if it held no feed: the raffle that results, or
/// the reason for which no winner was picked.
pub open spec fn draw(
    r: RaffleView,
    now: i64,
    randomness_account: Identity,
    reading: Option<OracleReading>,
) -> Result<RaffleView, RaffleError> {
    match draw_refusal(r, now) {
        Some(e) => Err(e),
        None => match reading {
            None => Err(RaffleError::InvalidRandomnessAccount),
            Some(rd) => if staleness(now, rd) >= STALENESS_WINDOW {
                Err(RaffleError::RandomnessTooOld)
            } else {
                Ok(after_draw(r, rd.value, randomness_account))
            },
        },
    }
}

/// Tells whether `after` and `drawn` are what a draw on `before` leaves
/// and returns.
pub open spec fn draw_settled(
    before: RaffleView,
    now: i64,
    randomness_account: Identity,
    reading: Option<OracleReading>,
    after: RaffleView,
    drawn: Result<Identity, RaffleError>,
) -> bool {
    match draw(before, now, randomness_account, reading) {
        Ok(next) => {
            &&& after =~= next
            &&& next.winner matches Some(winner)
            &&& drawn == Ok::<Identity, RaffleError>(winner)
        },
        Err(e) => after =~= before && drawn == Err::<Identity, RaffleError>(e),
    }
}

/// Picks the winner at time `now`, given what the oracle account
/// `randomness_account` held: a reading, or `None` if it held no feed.
///
/// The draw is refused, and nothing changes, for the reasons and in the
/// order that [`draw_refusal`] gives, then where there is no reading, then
/// where the reading is 60 time units old or older. Otherwise the winner is
/// the participant in slot [`winner_index`]: every slot is as likely as any
/// other, however many tickets its holder bought. The raffle's money stays
/// in escrow and its status stays as it is.
pub fn draw_winner_with(
    raffle: &mut RaffleAccount,
    now: i64,
    randomness_account: Identity,
    reading: Option<OracleReading>,
) -> (drawn: Result<Identity, RaffleError>)
    ensures
        draw_settled(old(raffle)@, now, randomness_account, reading, final(raffle)@, drawn),
        drawn is Err ==> *final(raffle) == *old(raffle),
        old(raffle).wf() ==> final(raffle).wf(),
        old(raffle).is_sold_out ==> final(raffle).is_sold_out,
{
    if let Some(e) = check_draw(raffle, now) {
        return Err(e);
    }
    let reading: OracleReading = match reading {
        Some(rd) => rd,
        None => { return Err(RaffleError::InvalidRandomnessAccount); },
    };
    if now as i128 - reading.last_update_timestamp as i128 >= STALENESS_WINDOW as i128 {
        return Err(RaffleError::RandomnessTooOld);
    }
    let random: u128 = #[verifier::truncate] (reading.value as u128);
    proof {
        lemma_random_number_is_whole_value(reading.value);
    }
    let slots: usize = raffle.participants.len();
    let index: usize = (random % (slots as u128)) as usize;
    let winner: Identity = raffle.participants[index];
    raffle.winner = Some(winner);
    raffle.claimed = true;
    raffle.product_delivered_status = Some(DeliveryStatus::Pending);
    raffle.randomness_account = Some(randomness_account);
    Ok(winner)
}

/// Makes the tests of [`draw_refusal`].
fn check_draw(raffle: &RaffleAccount, now: i64) -> (refusal: Option<RaffleError>)
    ensures
        refusal == draw_refusal(raffle@, now),
{
    if raffle.status != RaffleStatus::Active {
        Some(RaffleError::RaffleNotActive)
    } else if raffle.participants.len() == 0 {
        Some(RaffleError::NoParticipants)
    } else if now <= raffle.deadline {
        Some(RaffleError::DeadlineNotReached)
    } else if raffle.claimed {
        Some(RaffleError::AlreadyClaimed)
    } else {
        None
    }
}

/// Picks the winner at time `now` from the data of the oracle account
/// `randomness_account`.
///
/// A draw that [`draw_refusal`] refuses fails with that reason before the
/// data is looked at. Otherwise the data is parsed as a pull feed, and the
/// draw goes on as [`draw_winner_with`] does on what the parser found:
/// data that does not begin as a feed does fails with
/// `InvalidRandomnessAccount`. Whatever happens the data stays as it was,
/// and a draw that fails changes nothing.
pub fn draw_winner(
    raffle: &mut RaffleAccount,
    now: i64,
    randomness_account: Identity,
    randomness_data: &mut [u8],
) -> (drawn: Result<Identity, RaffleError>)
    ensures
        final(randomness_data)@ == old(randomness_data)@,
        exists|reading: Option<OracleReading>|
            {
                &&& reading is Some ==> carries_feed_mark(old(randomness_data)@)
                &&& #[trigger] draw_settled(
                    old(raffle)@,
                    now,
                    randomness_account,
                    reading,
                    final(raffle)@,
                    drawn,
                )
            },
        draw_refusal(old(raffle)@, now) matches Some(e) ==> drawn == Err::<Identity, RaffleError>(e),
        draw_refusal(old(raffle)@, now) is None && !carries_feed_mark(old(randomness_data)@)
            ==> drawn == Err::<Identity, RaffleError>(RaffleError::InvalidRandomnessAccount),
        drawn is Err ==> *final(raffle) == *old(raffle),
        old(raffle).wf() ==> final(raffle).wf(),
        old(raffle).is_sold_out ==> final(raffle).is_sold_out,
{
    if let Some(e) = check_draw(raffle, now) {
        assert(draw_settled(raffle@, now, randomness_account, None, raffle@, Err(e)));
        return Err(e);
    }
    let reading: Option<OracleReading> = match parse_pull_feed(randomness_data) {
        Ok(rd) => Some(rd),
        Err(_) => None,
    };
    draw_winner_with(raffle, now, randomness_account, reading)
}

} // verus!
