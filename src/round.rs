use vstd::prelude::*;

verus! {

/// Seconds in one hour.
pub const SECONDS_PER_HOUR: u64 = 3600;

/// How long, in seconds, the reveal window stays open after the sale closes.
pub const REVEAL_WINDOW: u64 = 24 * 3600;

/// The public record of one lottery round.
///
/// Identities are held as their textual encoding, the bytes that also go
/// into a commit preimage.
#[derive(Debug)]
pub struct LotteryRound {
    pub round_id: u64,
    pub ticket_price: i128,
    pub total_pool: i128,
    pub participants_count: u64,
    pub is_active: bool,
    pub winner: Option<Vec<u8>>,
    pub end_time: u64,
    pub reveal_deadline: u64,
    pub finalized: bool,
    pub allow_multiple: bool,
}

impl LotteryRound {
    /// The record that stands for "no such round".
    pub open spec fn is_sentinel(&self) -> bool {
        &&& self.round_id == 0
        &&& self.ticket_price == 0
        &&& self.total_pool == 0
        &&& self.participants_count == 0
        &&& !self.is_active
        &&& self.winner.is_none()
        &&& self.end_time == 0
        &&& self.reveal_deadline == 0
        &&& !self.finalized
        &&& !self.allow_multiple
    }

    /// The two records agree on every field, the winner by its bytes.
    pub open spec fn same_as(&self, o: &LotteryRound) -> bool {
        &&& self.round_id == o.round_id
        &&& self.ticket_price == o.ticket_price
        &&& self.total_pool == o.total_pool
        &&& self.participants_count == o.participants_count
        &&& self.is_active == o.is_active
        &&& self.end_time == o.end_time
        &&& self.reveal_deadline == o.reveal_deadline
        &&& self.finalized == o.finalized
        &&& self.allow_multiple == o.allow_multiple
        &&& self.winner.is_some() == o.winner.is_some()
        &&& self.winner.is_some() ==> self.winner.unwrap()@ == o.winner.unwrap()@
    }

    pub fn sentinel() -> (r: LotteryRound)
        ensures
            r.is_sentinel(),
    {
        LotteryRound {
            round_id: 0,
            ticket_price: 0,
            total_pool: 0,
            participants_count: 0,
            is_active: false,
            winner: None,
            end_time: 0,
            reveal_deadline: 0,
            finalized: false,
            allow_multiple: false,
        }
    }
}

/// Key of a round record.
pub enum RoundBook {
    Round(u64),
}

/// Key of a participant slot: round id and the ticket's index, from 1.
pub enum ParticipantBook {
    Participant(u64, u64),
}

/// Key of a commit digest: round id and identity.
pub enum CommitBook {
    Commit(u64, Vec<u8>),
}

/// Key of a revealed secret: round id and identity.
pub enum RevealBook {
    Reveal(u64, Vec<u8>),
}

/// Key of the one-ticket guard: round id and identity.
pub enum ParticipantMap {
    HasTicket(u64, Vec<u8>),
}

/// The broad class of a refused operation.
#[derive(Debug, Clone, Copy, PartialEq, Eq, Structural)]
pub enum ErrorKind {
    /// The operation is not allowed in the current state.
    PolicyViolation,
    /// The operation came outside its time window.
    TemporalViolation,
    /// A revealed secret does not match its commit.
    IntegrityViolation,
    /// The round, or a record the operation needs, does not exist.
    NotFound,
}

/// Why an operation was refused. A refused operation changes nothing.
#[derive(Debug, Clone, Copy, PartialEq, Eq, Structural)]
pub enum LotteryError {
    AlreadyInitialized,
    NotInitialized,
    ActiveRoundExists,
    TimeOverflow,
    RoundLimit,
    RoundNotFound,
    RoundNotActive,
    SaleClosed,
    DuplicateTicket,
    WrongAmount,
    PoolOverflow,
    RevealNotStarted,
    RevealClosed,
    NoCommit,
    CommitMismatch,
    AlreadyFinalized,
    NoParticipants,
    RevealWindowOpen,
}

impl LotteryError {
    pub open spec fn spec_kind(&self) -> ErrorKind {
        match self {
            LotteryError::RoundNotFound | LotteryError::NoCommit => ErrorKind::NotFound,
            LotteryError::SaleClosed | LotteryError::RevealNotStarted | LotteryError::RevealClosed
            | LotteryError::RevealWindowOpen => ErrorKind::TemporalViolation,
            LotteryError::CommitMismatch => ErrorKind::IntegrityViolation,
            _ => ErrorKind::PolicyViolation,
        }
    }

    /// The class this error belongs to.
    pub fn kind(&self) -> (k: ErrorKind)
        ensures
            k == self.spec_kind(),
    {
        match self {
            LotteryError::RoundNotFound | LotteryError::NoCommit => ErrorKind::NotFound,
            LotteryError::SaleClosed | LotteryError::RevealNotStarted | LotteryError::RevealClosed
            | LotteryError::RevealWindowOpen => ErrorKind::TemporalViolation,
            LotteryError::CommitMismatch => ErrorKind::IntegrityViolation,
            _ => ErrorKind::PolicyViolation,
        }
    }
}

} // verus!
