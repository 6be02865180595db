use vstd::prelude::*;

verus! {

/// Every way a raffle operation can be refused.
///
/// An operation that returns one of these has changed nothing.
#[derive(Clone, Copy, Debug, PartialEq, Eq, Structural)]
pub enum RaffleError {
    InvalidPrice,
    InvalidTicketCount,
    InvalidDeadline,
    RaffleNotActive,
    DeadlinePassed,
    MaxTicketsReached,
    Overflow,
    CannotDrawYet,
    MinTicketsNotReached,
    InvalidStatus,
    NoParticipants,
    RaffleNotCompleted,
    NotWinner,
    AlreadyClaimed,
    NotSeller,
    TicketsAlreadySold,
    DeadlineNotReached,
    MinTicketsReached,
    Unauthorized,
    InvalidRandomnessAccount,
    RandomnessTooOld,
    EnrtiesFull,
    UnderFlow,
    RaffleFull,
    RandomnessExpired,
    RandomnessAlreadyRevealed,
    InvalidRaffleState,
    RandomnessNotResolved,
    WinnerAlreadySelected,
}

impl RaffleError {
    /// The text shown to a caller for each error.
    pub open spec fn message_text(self) -> Seq<char> {
        match self {
            RaffleError::InvalidPrice => "Invalid price"@,
            RaffleError::InvalidTicketCount => "Invalid ticket count"@,
            RaffleError::InvalidDeadline => "Invalid deadline"@,
            RaffleError::RaffleNotActive => "Raffle not active"@,
            RaffleError::DeadlinePassed => "Deadline passed"@,
            RaffleError::MaxTicketsReached => "Max tickets reached"@,
            RaffleError::Overflow => "Arithmetic overflow"@,
            RaffleError::CannotDrawYet => "Cannot draw yet"@,
            RaffleError::MinTicketsNotReached => "Min tickets not reached"@,
            RaffleError::InvalidStatus => "Invalid status"@,
            RaffleError::NoParticipants => "No participants"@,
            RaffleError::RaffleNotCompleted => "Raffle not completed"@,
            RaffleError::NotWinner => "Not winner"@,
            RaffleError::AlreadyClaimed => "Already claimed"@,
            RaffleError::NotSeller => "Not seller"@,
            RaffleError::TicketsAlreadySold => "Tickets already sold"@,
            RaffleError::DeadlineNotReached => "Deadline not reached"@,
            RaffleError::MinTicketsReached => "Min tickets reached"@,
            RaffleError::Unauthorized => "Unauthorise request!"@,
            RaffleError::InvalidRandomnessAccount => "Invalid randomness account data!"@,
            RaffleError::RandomnessTooOld => "Random data too old!"@,
            RaffleError::EnrtiesFull => "Entries full! You missed the opportunity!"@,
            RaffleError::UnderFlow => "Arithmetic under flow"@,
            RaffleError::RaffleFull => "Participants full!"@,
            RaffleError::RandomnessExpired => "Randomness expired!"@,
            RaffleError::RandomnessAlreadyRevealed => "Randomness already expired!"@,
            RaffleError::InvalidRaffleState => "Invalid Raffle state!"@,
            RaffleError::RandomnessNotResolved => "Randomness not resolved!"@,
            RaffleError::WinnerAlreadySelected => "Winner already selected!"@,
        }
    }

    /// Returns the text shown to a caller for this error.
    pub fn message(&self) -> (text: &'static str)
        ensures
            text@ == self.message_text(),
    {
        match self {
            RaffleError::InvalidPrice => "Invalid price",
            RaffleError::InvalidTicketCount => "Invalid ticket count",
            RaffleError::InvalidDeadline => "Invalid deadline",
            RaffleError::RaffleNotActive => "Raffle not active",
            RaffleError::DeadlinePassed => "Deadline passed",
            RaffleError::MaxTicketsReached => "Max tickets reached",
            RaffleError::Overflow => "Arithmetic overflow",
            RaffleError::CannotDrawYet => "Cannot draw yet",
            RaffleError::MinTicketsNotReached => "Min tickets not reached",
            RaffleError::InvalidStatus => "Invalid status",
            RaffleError::NoParticipants => "No participants",
            RaffleError::RaffleNotCompleted => "Raffle not completed",
            RaffleError::NotWinner => "Not winner",
            RaffleError::AlreadyClaimed => "Already claimed",
            RaffleError::NotSeller => "Not seller",
            RaffleError::TicketsAlreadySold => "Tickets already sold",
            RaffleError::DeadlineNotReached => "Deadline not reached",
            RaffleError::MinTicketsReached => "Min tickets reached",
            RaffleError::Unauthorized => "Unauthorise request!",
            RaffleError::InvalidRandomnessAccount => "Invalid randomness account data!",
            RaffleError::RandomnessTooOld => "Random data too old!",
            RaffleError::EnrtiesFull => "Entries full! You missed the opportunity!",
            RaffleError::UnderFlow => "Arithmetic under flow",
            RaffleError::RaffleFull => "Participants full!",
            RaffleError::RandomnessExpired => "Randomness expired!",
            RaffleError::RandomnessAlreadyRevealed => "Randomness already expired!",
            RaffleError::InvalidRaffleState => "Invalid Raffle state!",
            RaffleError::RandomnessNotResolved => "Randomness not resolved!",
            RaffleError::WinnerAlreadySelected => "Winner already selected!",
        }
    }
}

} // verus!
