use raffle::{
    buy_tickets, create_raffle, draw_winner, initialise_counter, Identity, RaffleAccount,
    RaffleError,
};

const FEED_MARK: [u8; 8] = [196, 27, 108, 196, 10, 215, 219, 40];
const FEED_LEN: usize = 8 + 3200;
const LAST_UPDATE_AT: usize = 8 + 2208;
const VALUE_AT: usize = 8 + 2256;

fn id(n: u8) -> Identity {
    Identity::new([n; 32])
}

fn three_buyers() -> RaffleAccount {
    let mut counter = initialise_counter();
    let (mut raffle, _) = create_raffle(
        &mut counter,
        id(1),
        id(2),
        String::from("bike"),
        String::new(),
        String::new(),
        500,
        10,
        1,
        50,
        1_000,
        100,
    )
    .unwrap();
    buy_tickets(&mut raffle, id(10), 20, 200).unwrap();
    buy_tickets(&mut raffle, id(11), 1, 200).unwrap();
    buy_tickets(&mut raffle, id(12), 1, 200).unwrap();
    raffle
}

/// Room for a feed account, and where in it the account has to start so that
/// the part after the mark lies on a 16-byte boundary.
fn feed_room() -> (Vec<u8>, usize) {
    let room = vec![0u8; FEED_LEN + 16];
    let start = (16 - (room.as_ptr() as usize + 8) % 16) % 16;
    (room, start)
}

fn write_feed(account: &mut [u8], value: i128, last_update_timestamp: i64) {
    account[..8].copy_from_slice(&FEED_MARK);
    account[LAST_UPDATE_AT..LAST_UPDATE_AT + 8]
        .copy_from_slice(&last_update_timestamp.to_le_bytes());
    account[VALUE_AT..VALUE_AT + 16].copy_from_slice(&value.to_le_bytes());
}

#[test]
fn a_draw_reads_value_and_time_from_the_feed() {
    for (value, winner) in [(0i128, 10u8), (4, 11), (5, 12), (-1, 10), (-5, 12), (1i128 << 64, 11)] {
        let mut raffle = three_buyers();
        let (mut room, start) = feed_room();
        let account = &mut room[start..start + FEED_LEN];
        write_feed(account, value, 1_950);
        let before = account.to_vec();
        let drawn = draw_winner(&mut raffle, 2_000, id(7), account);
        assert_eq!(drawn, Ok(id(winner)));
        assert_eq!(raffle.winner, Some(id(winner)));
        assert_eq!(raffle.randomness_account, Some(id(7)));
        assert!(raffle.claimed);
        assert_eq!(account.to_vec(), before);
    }
}

#[test]
fn a_draw_refuses_a_feed_that_is_too_old() {
    let mut raffle = three_buyers();
    let (mut room, start) = feed_room();
    let account = &mut room[start..start + FEED_LEN];
    write_feed(account, 4, 2_000 - 120);
    let before = raffle.clone();
    assert_eq!(
        draw_winner(&mut raffle, 2_000, id(7), account),
        Err(RaffleError::RandomnessTooOld)
    );
    assert_eq!(raffle.winner, None);
    assert_eq!(raffle, before);
    write_feed(account, 4, 2_000 - 60);
    assert_eq!(
        draw_winner(&mut raffle, 2_000, id(7), account),
        Err(RaffleError::RandomnessTooOld)
    );
    write_feed(account, 4, 2_000 - 59);
    assert_eq!(draw_winner(&mut raffle, 2_000, id(7), account), Ok(id(11)));
}

#[test]
fn a_draw_refuses_data_that_is_no_feed() {
    let mut raffle = three_buyers();
    let before = raffle.clone();
    let (mut room, start) = feed_room();
    let account = &mut room[start..start + FEED_LEN];
    write_feed(account, 4, 1_950);
    account[0] = 0;
    assert_eq!(
        draw_winner(&mut raffle, 2_000, id(7), account),
        Err(RaffleError::InvalidRandomnessAccount)
    );
    let mut empty: [u8; 0] = [];
    assert_eq!(
        draw_winner(&mut raffle, 2_000, id(7), &mut empty),
        Err(RaffleError::InvalidRandomnessAccount)
    );
    let mut short = [196u8, 27, 108, 196, 10, 215, 219];
    assert_eq!(
        draw_winner(&mut raffle, 2_000, id(7), &mut short),
        Err(RaffleError::InvalidRandomnessAccount)
    );
    assert_eq!(raffle, before);
}

#[test]
fn a_draw_refuses_a_feed_that_is_cut_short() {
    let mut raffle = three_buyers();
    let (mut room, start) = feed_room();
    write_feed(&mut room[start..start + FEED_LEN], 4, 1_950);
    assert_eq!(
        draw_winner(&mut raffle, 2_000, id(7), &mut room[start..start + FEED_LEN - 1]),
        Err(RaffleError::InvalidRandomnessAccount)
    );
    assert_eq!(raffle.winner, None);
    assert_eq!(
        draw_winner(&mut raffle, 2_000, id(7), &mut room[start..start + FEED_LEN + 5]),
        Ok(id(11))
    );
}

#[test]
fn a_draw_looks_at_the_raffle_before_the_feed() {
    let mut raffle = three_buyers();
    let (mut room, start) = feed_room();
    let account = &mut room[start..start + FEED_LEN];
    write_feed(account, 4, 900);
    assert_eq!(
        draw_winner(&mut raffle, 950, id(7), account),
        Err(RaffleError::DeadlineNotReached)
    );
    let mut nothing: [u8; 0] = [];
    assert_eq!(
        draw_winner(&mut raffle, 950, id(7), &mut nothing),
        Err(RaffleError::DeadlineNotReached)
    );
    write_feed(account, 4, 1_950);
    assert_eq!(draw_winner(&mut raffle, 2_000, id(7), account), Ok(id(11)));
    assert_eq!(
        draw_winner(&mut raffle, 2_000, id(7), &mut nothing),
        Err(RaffleError::AlreadyClaimed)
    );
    assert_eq!(raffle.winner, Some(id(11)));
}
