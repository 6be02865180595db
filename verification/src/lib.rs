//! The life of a raffle: a seller puts up an item, buyers pay for entries
//! into escrow, an oracle-backed draw picks the winner after the deadline,
//! and the prize is shipped and delivered.
//!
//! Every operation takes the current time from its caller, validates before
//! it changes anything, and leaves the raffle untouched where it fails.

pub mod counter;
pub mod create;
pub mod delivery;
pub mod draw;
pub mod error;
pub mod events;
pub mod helpers;
pub mod identity;
pub mod laws;
pub mod oracle;
pub mod purchase;
pub mod types;
pub mod utils;

pub use crate::counter::initialise_counter;
pub use crate::create::create_raffle;
pub use crate::delivery::{mark_delivered, mark_shipped};
pub use crate::draw::{draw_winner, draw_winner_with};
pub use crate::error::RaffleError;
pub use crate::events::{ProductDelivered, ProductShipped, RaffleCreated, TicketsBought};
pub use crate::helpers::{get_unix_timestamp, timestamp_from_millis, unix_seconds};
pub use crate::identity::Identity;
pub use crate::purchase::{buy_tickets, quote_purchase};
pub use crate::types::{
    Counter, DeliveryStatus, OracleReading, RaffleAccount, RaffleStatus, DISPUTE_WINDOW,
    MAX_PARTICIPANTS, PRICE_SCALE, STALENESS_WINDOW,
};
pub use crate::utils::scale_price;
