//! A ticketed lottery whose winner comes from a commit-reveal scheme.
//!
//! Participants buy a ticket during a sale window and commit to a secret;
//! once the sale closes they reveal it, and at finalization every reveal is
//! folded, in ticket order, into one digest together with a late ledger
//! sequence number. The digest picks the winning ticket.
//!
//! Authorization, the ledger clock and token payments belong to the host:
//! operations take the current time and sequence number as arguments, and
//! `check_ticket` / `draw_winner` decide before the host moves any value.

pub mod contract;
pub mod digest;
pub mod laws;
pub mod round;
pub mod store;

pub use contract::{Draw, LotteryContract, RoundState};
pub use digest::{commit_hash, same_bytes, select_index};
pub use round::{
    CommitBook, ErrorKind, LotteryError, LotteryRound, ParticipantBook, ParticipantMap, RevealBook,
    RoundBook, REVEAL_WINDOW, SECONDS_PER_HOUR,
};
pub use store::Entry;
