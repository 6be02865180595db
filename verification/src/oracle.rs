use vstd::prelude::*;
use switchboard_on_demand::on_demand::accounts::pull_feed::PullFeedAccountData;
use crate::types::OracleReading;

verus! {

/// `switchboard_on_demand::on_demand::OnDemandError`: why the parser refused
/// an account; only its presence is looked at.
#[verifier::external_type_specification]
#[verifier::external_body]
pub struct ExOnDemandError(switchboard_on_demand::on_demand::OnDemandError);

/// The eight bytes with which the data of every pull feed account begins.
pub open spec fn feed_mark() -> Seq<u8> {
    seq![196u8, 27u8, 108u8, 196u8, 10u8, 215u8, 219u8, 40u8]
}

/// Tells whether `data` begins as the data of a pull feed account does.
pub open spec fn carries_feed_mark(data: Seq<u8>) -> bool {
    data.len() >= 8 && data.subrange(0, 8) == feed_mark()
}

/// Reads a pull feed account with
/// `switchboard_on_demand::on_demand::accounts::pull_feed::PullFeedAccountData::parse`
/// and hands on the two fields that a draw consults: `result.value` and
/// `last_update_timestamp`.
///
/// Claimed without proof: the data is left as it was, and data that is
/// shorter than eight bytes, or begins with other bytes than
/// [`feed_mark`], is never accepted. Nothing is claimed of the data that is
/// accepted, nor of the values read: the parser also looks at the length
/// and at where in memory the data lies.
#[verifier::external_body]
pub(crate) fn parse_pull_feed(data: &mut [u8]) -> (parsed: Result<
    OracleReading,
    switchboard_on_demand::on_demand::OnDemandError,
>)
    ensures
        final(data)@ == old(data)@,
        parsed is Ok ==> carries_feed_mark(old(data)@),
{
    let cell = std::cell::RefCell::new(data);
    let parsed = PullFeedAccountData::parse(cell.borrow());
    match parsed {
        Ok(feed) => Ok(
            OracleReading {
                value: feed.result.value,
                last_update_timestamp: feed.last_update_timestamp,
            },
        ),
        Err(e) => Err(e),
    }
}

} // verus!
