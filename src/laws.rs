use vstd::prelude::*;
use crate::contract::{LotteryContract, RoundState};
use crate::digest::{be_bytes_u32, be_prefix_value, commit_digest, sha256_of, zero_digest};
use crate::round::{ErrorKind, LotteryError, SECONDS_PER_HOUR, REVEAL_WINDOW};
use crate::store::{listed, lookup};

verus! {

/// In every well-formed state, each round's pool is exactly its ticket price
/// times its number of tickets.
pub proof fn lemma_pool_matches_tickets(s: LotteryContract, round_id: u64)
    requires
        s.wf(),
        s.has_round(round_id),
    ensures
        s.round_of(round_id).info.total_pool == s.round_of(round_id).info.ticket_price
            * s.round_of(round_id).info.participants_count,
{
}

/// While the round the active-round pointer names is still active, a new
/// round is refused.
pub proof fn lemma_create_refused_while_active(s: LotteryContract, duration_hours: u64, now: u64)
    requires
        s.wf(),
        s.admin.is_some(),
        s.active_round != 0,
        s.round_of(s.active_round).info.is_active,
    ensures
        s.create_error(duration_hours, now) == Some(LotteryError::ActiveRoundExists),
{
}

/// Once no round is active (as after a finalization), a new round is
/// accepted, given times and round ids that fit in 64 bits.
pub proof fn lemma_create_allowed_when_none_active(s: LotteryContract, duration_hours: u64, now: u64)
    requires
        s.wf(),
        s.admin.is_some(),
        s.no_active_round(),
        now + duration_hours * SECONDS_PER_HOUR + REVEAL_WINDOW <= u64::MAX,
        s.round_count < u64::MAX,
    ensures
        s.create_error(duration_hours, now).is_none(),
{
    if s.active_round != 0 {
        assert(!s.rounds@[s.active_round - 1].info.is_active);
    }
}

/// In a one-ticket round, an identity that already holds a ticket is refused
/// another, whatever it pays; within the sale window the refusal is a policy
/// violation for a duplicate ticket.
pub proof fn lemma_second_ticket_refused(
    s: LotteryContract,
    round_id: u64,
    who: Seq<u8>,
    amount: i128,
    now: u64,
)
    requires
        s.wf(),
        s.has_round(round_id),
        !s.round_of(round_id).info.allow_multiple,
        listed(s.round_of(round_id).holders@, who),
    ensures
        s.ticket_error(round_id, who, amount, now).is_some(),
        s.round_of(round_id).info.is_active && now < s.round_of(round_id).info.end_time ==> s.ticket_error(
            round_id,
            who,
            amount,
            now,
        ) == Some(LotteryError::DuplicateTicket) && LotteryError::DuplicateTicket.spec_kind()
            == ErrorKind::PolicyViolation,
{
}

/// Inside the reveal window, for an identity with a commit, a reveal is
/// accepted exactly when the digest of `secret ‖ identity ‖ round_id` equals
/// the commit.
pub proof fn lemma_reveal_accepted_iff_digest_matches(
    s: LotteryContract,
    round_id: u64,
    who: Seq<u8>,
    secret: Seq<u8>,
    now: u64,
)
    requires
        s.wf(),
        s.has_round(round_id),
        s.round_of(round_id).info.end_time <= now < s.round_of(round_id).info.reveal_deadline,
        lookup(s.round_of(round_id).commits@, who).is_some(),
    ensures
        s.reveal_error(round_id, who, secret, now).is_none() <==> commit_digest(secret, who, round_id)
            == lookup(s.round_of(round_id).commits@, who).unwrap(),
        s.reveal_error(round_id, who, secret, now).is_some() ==> s.reveal_error(
            round_id,
            who,
            secret,
            now,
        ) == Some(LotteryError::CommitMismatch),
{
}

/// The winning index of a round with tickets lies in `[1, participants_count]`.
pub proof fn lemma_draw_index_in_range(rs: RoundState, sequence: u32)
    requires
        rs.info.participants_count > 0,
    ensures
        1 <= rs.draw_index(sequence) <= rs.info.participants_count,
{
}

proof fn lemma_fold_agrees(a: RoundState, b: RoundState, n: nat)
    requires
        n <= a.slots@.len(),
        a.slots@.len() == b.slots@.len(),
        forall|k: int| 0 <= k < a.slots@.len() ==> (#[trigger] a.slots@[k])@ == b.slots@[k]@,
        forall|who: Seq<u8>| a.reveal_of(who) == b.reveal_of(who),
    ensures
        a.fold_upto(n) == b.fold_upto(n),
        a.reveals_upto(n) == b.reveals_upto(n),
    decreases n,
{
    if n > 0 {
        lemma_fold_agrees(a, b, (n - 1) as nat);
        assert(a.slots@[n - 1]@ == b.slots@[n - 1]@);
    }
}

/// The draw depends only on the slots, the reveals of their identities, the
/// ticket count and the sequence number: two rounds that agree on these
/// draw the same index.
pub proof fn lemma_draw_deterministic(a: RoundState, b: RoundState, sequence: u32)
    requires
        a.slots@.len() == b.slots@.len(),
        forall|k: int| 0 <= k < a.slots@.len() ==> (#[trigger] a.slots@[k])@ == b.slots@[k]@,
        forall|who: Seq<u8>| a.reveal_of(who) == b.reveal_of(who),
        a.info.participants_count == b.info.participants_count,
    ensures
        a.draw_digest(sequence) == b.draw_digest(sequence),
        a.draw_index(sequence) == b.draw_index(sequence),
{
    lemma_fold_agrees(a, b, a.slots@.len());
}

proof fn lemma_fold_without_reveals(rs: RoundState, n: nat)
    requires
        n <= rs.slots@.len(),
        forall|k: int| 0 <= k < n ==> rs.reveal_of((#[trigger] rs.slots@[k])@).is_none(),
    ensures
        rs.fold_upto(n) == zero_digest(),
        rs.reveals_upto(n) == 0,
    decreases n,
{
    if n > 0 {
        lemma_fold_without_reveals(rs, (n - 1) as nat);
        assert(rs.reveal_of(rs.slots@[n - 1]@).is_none());
    }
}

/// A round where nobody revealed can still be finalized: the fold stays at
/// 32 zero bytes, so the draw is decided by the zero digest and the sequence
/// number alone, and the winner is still drawn over every ticket.
pub proof fn lemma_finalize_without_reveals(s: LotteryContract, round_id: u64, now: u64, sequence: u32)
    requires
        s.wf(),
        s.admin.is_some(),
        s.has_round(round_id),
        s.round_of(round_id).info.is_active,
        s.round_of(round_id).info.participants_count > 0,
        now >= s.round_of(round_id).info.reveal_deadline,
        s.round_of(round_id).reveals@.len() == 0,
    ensures
        s.finalize_error(round_id, now).is_none(),
        s.round_of(round_id).draw_digest(sequence) == sha256_of(zero_digest() + be_bytes_u32(sequence)),
        s.round_of(round_id).reveals_upto(s.round_of(round_id).slots@.len()) == 0,
        s.round_of(round_id).draw_index(sequence) == be_prefix_value(
            sha256_of(zero_digest() + be_bytes_u32(sequence)),
        ) % (s.round_of(round_id).info.participants_count as int) + 1,
{
    let rs = s.round_of(round_id);
    assert forall|k: int| 0 <= k < rs.slots@.len() implies rs.reveal_of(
        (#[trigger] rs.slots@[k])@,
    ).is_none() by {
        assert(!(exists|i: int| 0 <= i < rs.reveals@.len() && #[trigger] rs.reveals@[i].key@
            == rs.slots@[k]@));
    }
    lemma_fold_without_reveals(rs, rs.slots@.len());
}

/// Before the reveal deadline an otherwise finalizable round is refused as a
/// temporal violation, whatever has been revealed.
pub proof fn lemma_finalize_early_refused(s: LotteryContract, round_id: u64, now: u64)
    requires
        s.wf(),
        s.admin.is_some(),
        s.has_round(round_id),
        s.round_of(round_id).info.is_active,
        s.round_of(round_id).info.participants_count > 0,
        now < s.round_of(round_id).info.reveal_deadline,
    ensures
        s.finalize_error(round_id, now) == Some(LotteryError::RevealWindowOpen),
        LotteryError::RevealWindowOpen.spec_kind() == ErrorKind::TemporalViolation,
{
}

} // verus!
