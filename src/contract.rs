use vstd::prelude::*;
use crate::digest::{
    be_bytes_u32, be_prefix_value, be_u32_bytes, commit_digest, commit_hash,
    copy_bytes, push_all, same_bytes, select_index, sha256, sha256_of, zero_digest,
};
use crate::round::{
    CommitBook, LotteryError, LotteryRound, ParticipantBook, ParticipantMap, RevealBook, RoundBook,
    REVEAL_WINDOW, SECONDS_PER_HOUR,
};
use crate::store::{contains_bytes, find_entry, keys_unique, listed, lookup, put_entry, Entry};

verus! {

/// Everything recorded about one round: its public record, the ticket slots
/// in purchase order, the commits, the reveals and the one-ticket guard.
pub struct RoundState {
    pub info: LotteryRound,
    /// `slots[k]` is the identity that bought ticket `k + 1`.
    pub slots: Vec<Vec<u8>>,
    pub commits: Vec<Entry>,
    pub reveals: Vec<Entry>,
    /// Identities that hold a ticket in a one-ticket-per-identity round.
    pub holders: Vec<Vec<u8>>,
}

impl RoundState {
    pub open spec fn wf(&self) -> bool {
        &&& self.info.participants_count == self.slots@.len()
        &&& self.info.total_pool == self.info.ticket_price * self.info.participants_count
        &&& self.info.is_active == !self.info.finalized
        &&& self.info.finalized == self.info.winner.is_some()
        &&& self.info.reveal_deadline == self.info.end_time + REVEAL_WINDOW
        &&& keys_unique(self.commits@)
        &&& keys_unique(self.reveals@)
    }

    /// The secret revealed by `who`, if any.
    pub open spec fn reveal_of(&self, who: Seq<u8>) -> Option<Seq<u8>> {
        lookup(self.reveals@, who)
    }

    /// The accumulator after folding the reveals of the first `n` slots, in
    /// slot order; a slot without a reveal leaves it unchanged.
    pub open spec fn fold_upto(&self, n: nat) -> Seq<u8>
        decreases n,
    {
        if n == 0 {
            zero_digest()
        } else {
            let acc = self.fold_upto((n - 1) as nat);
            match self.reveal_of(self.slots@[n - 1]@) {
                Some(secret) => sha256_of(acc + secret),
                None => acc,
            }
        }
    }

    /// How many of the first `n` slots have a reveal.
    pub open spec fn reveals_upto(&self, n: nat) -> nat
        decreases n,
    {
        if n == 0 {
            0
        } else {
            self.reveals_upto((n - 1) as nat) + if self.reveal_of(self.slots@[n - 1]@).is_some() {
                1nat
            } else {
                0nat
            }
        }
    }

    /// The digest that decides the round: the fold of every reveal, then the
    /// ledger sequence number in big-endian.
    pub open spec fn draw_digest(&self, sequence: u32) -> Seq<u8> {
        sha256_of(self.fold_upto(self.slots@.len()) + be_bytes_u32(sequence))
    }

    /// The winning ticket index, from 1.
    pub open spec fn draw_index(&self, sequence: u32) -> int {
        be_prefix_value(self.draw_digest(sequence)) % (self.info.participants_count as int) + 1
    }
}

/// The outcome of a draw.
#[derive(Debug)]
pub struct Draw {
    /// Index of the winning ticket, from 1.
    pub winner_index: u64,
    /// Identity that bought the winning ticket.
    pub winner: Vec<u8>,
    /// How many slots contributed a reveal to the fold.
    pub reveal_count: u64,
    /// The pool that goes to the winner.
    pub prize: i128,
}

/// The lottery's whole state: operator, payment token, the rounds and the
/// active-round pointer (0 when no round is active).
pub struct LotteryContract {
    pub admin: Option<Vec<u8>>,
    pub token: Option<Vec<u8>>,
    pub round_count: u64,
    pub active_round: u64,
    /// `rounds[k]` is round `k + 1`.
    pub rounds: Vec<RoundState>,
}

impl LotteryContract {
    pub open spec fn wf(&self) -> bool {
        &&& self.round_count == self.rounds@.len()
        &&& self.active_round <= self.round_count
        &&& forall|i: int|
            0 <= i < self.rounds@.len() ==> (#[trigger] self.rounds@[i]).wf()
                && self.rounds@[i].info.round_id == i + 1
        &&& forall|i: int|
            0 <= i < self.rounds@.len() && (#[trigger] self.rounds@[i]).info.is_active
                ==> self.active_round == i + 1
    }

    pub open spec fn has_round(&self, round_id: u64) -> bool {
        1 <= round_id <= self.rounds@.len()
    }

    pub open spec fn round_of(&self, round_id: u64) -> RoundState {
        self.rounds@[round_id - 1]
    }

    /// No round is active.
    pub open spec fn no_active_round(&self) -> bool {
        forall|i: int| 0 <= i < self.rounds@.len() ==> !(#[trigger] self.rounds@[i]).info.is_active
    }

    /// A fresh state: not initialized, no rounds.
    pub fn new() -> (r: LotteryContract)
        ensures
            r.wf(),
            r.admin.is_none(),
            r.token.is_none(),
            r.rounds@.len() == 0,
            r.active_round == 0,
    {
        LotteryContract { admin: None, token: None, round_count: 0, active_round: 0, rounds: Vec::new() }
    }

    /// Records the operator and the payment token, once.
    pub fn init_admin(&mut self, admin: &Vec<u8>, token: &Vec<u8>) -> (r: Result<(), LotteryError>)
        ensures
            old(self).admin.is_some() ==> r == Err::<(), LotteryError>(LotteryError::AlreadyInitialized)
                && *final(self) == *old(self),
            old(self).admin.is_none() ==> {
                &&& r.is_ok()
                &&& final(self).admin.is_some() && final(self).admin.unwrap()@ == admin@
                &&& final(self).token.is_some() && final(self).token.unwrap()@ == token@
                &&& final(self).round_count == old(self).round_count
                &&& final(self).active_round == old(self).active_round
                &&& final(self).rounds == old(self).rounds
            },
    {
        if self.admin.is_some() {
            return Err(LotteryError::AlreadyInitialized);
        }
        self.admin = Some(copy_bytes(admin));
        self.token = Some(copy_bytes(token));
        Ok(())
    }

    /// Why `create_round` would be refused, if it would.
    pub open spec fn create_error(&self, duration_hours: u64, now: u64) -> Option<LotteryError> {
        if self.admin.is_none() {
            Some(LotteryError::NotInitialized)
        } else if self.active_round != 0 && self.round_of(self.active_round).info.is_active {
            Some(LotteryError::ActiveRoundExists)
        } else if now + duration_hours * SECONDS_PER_HOUR + REVEAL_WINDOW > u64::MAX {
            Some(LotteryError::TimeOverflow)
        } else if self.round_count == u64::MAX {
            Some(LotteryError::RoundLimit)
        } else {
            None
        }
    }

    /// Opens a new round that sells tickets for `duration_hours` from `now`
    /// and takes reveals for a further day.
    pub fn create_round(&mut self, ticket_price: i128, duration_hours: u64, allow_multiple: bool, now: u64)
        -> (r: Result<u64, LotteryError>)
        requires
            old(self).wf(),
        ensures
            final(self).wf(),
            match old(self).create_error(duration_hours, now) {
                Some(e) => r == Err::<u64, LotteryError>(e) && *final(self) == *old(self),
                None => {
                    let id = (old(self).round_count + 1) as u64;
                    let fresh = final(self).round_of(id);
                    &&& r == Ok::<u64, LotteryError>(id)
                    &&& final(self).round_count == id
                    &&& final(self).active_round == id
                    &&& final(self).admin == old(self).admin
                    &&& final(self).token == old(self).token
                    &&& final(self).rounds@ == old(self).rounds@.push(fresh)
                    &&& fresh.info.round_id == id
                    &&& fresh.info.ticket_price == ticket_price
                    &&& fresh.info.total_pool == 0
                    &&& fresh.info.participants_count == 0
                    &&& fresh.info.is_active
                    &&& !fresh.info.finalized
                    &&& fresh.info.winner.is_none()
                    &&& fresh.info.end_time == now + duration_hours * SECONDS_PER_HOUR
                    &&& fresh.info.reveal_deadline == fresh.info.end_time + REVEAL_WINDOW
                    &&& fresh.info.allow_multiple == allow_multiple
                    &&& fresh.slots@.len() == 0
                    &&& fresh.commits@.len() == 0
                    &&& fresh.reveals@.len() == 0
                    &&& fresh.holders@.len() == 0
                },
            },
    {
        if self.admin.is_none() {
            return Err(LotteryError::NotInitialized);
        }
        if let Some(i) = self.round_index(self.active_round) {
            if self.rounds[i].info.is_active {
                return Err(LotteryError::ActiveRoundExists);
            }
        }
        let latest: u128 = now as u128 + duration_hours as u128 * (SECONDS_PER_HOUR as u128)
            + REVEAL_WINDOW as u128;
        if latest > u64::MAX as u128 {
            return Err(LotteryError::TimeOverflow);
        }
        let length = duration_hours * SECONDS_PER_HOUR;
        if self.round_count == u64::MAX {
            return Err(LotteryError::RoundLimit);
        }
        let id = self.round_count + 1;
        let end_time = now + length;
        let info = LotteryRound {
            round_id: id,
            ticket_price,
            total_pool: 0,
            participants_count: 0,
            is_active: true,
            winner: None,
            end_time,
            reveal_deadline: end_time + REVEAL_WINDOW,
            finalized: false,
            allow_multiple,
        };
        let fresh = RoundState {
            info,
            slots: Vec::new(),
            commits: Vec::new(),
            reveals: Vec::new(),
            holders: Vec::new(),
        };
        proof {
            assert(self.active_round != 0 ==> !self.round_of(self.active_round).info.is_active);
            assert(self.no_active_round());
        }
        self.rounds.push(fresh);
        self.round_count = id;
        self.active_round = id;
        Ok(id)
    }

    /// Position in `rounds` of the given round id, when the round exists.
    fn round_index(&self, round_id: u64) -> (r: Option<usize>)
        requires
            self.wf(),
        ensures
            match r {
                Some(i) => self.has_round(round_id) && i == round_id - 1,
                None => !self.has_round(round_id),
            },
    {
        if round_id == 0 || round_id as u128 > self.rounds.len() as u128 {
            None
        } else {
            Some((round_id - 1) as usize)
        }
    }

    /// Why `buy_ticket` would be refused, if it would.
    pub open spec fn ticket_error(&self, round_id: u64, who: Seq<u8>, amount: i128, now: u64) -> Option<
        LotteryError,
    > {
        if !self.has_round(round_id) {
            Some(LotteryError::RoundNotFound)
        } else {
            let info = self.round_of(round_id).info;
            if !info.is_active {
                Some(LotteryError::RoundNotActive)
            } else if now >= info.end_time {
                Some(LotteryError::SaleClosed)
            } else if !info.allow_multiple && listed(self.round_of(round_id).holders@, who) {
                Some(LotteryError::DuplicateTicket)
            } else if amount != info.ticket_price {
                Some(LotteryError::WrongAmount)
            } else if info.total_pool + amount > i128::MAX || info.total_pool + amount < i128::MIN
                || info.participants_count == u64::MAX {
                Some(LotteryError::PoolOverflow)
            } else {
                None
            }
        }
    }

    /// What a purchase by `who` with commit `commit` does to a round.
    pub open spec fn ticket_recorded(
        before: RoundState,
        after: RoundState,
        who: Seq<u8>,
        commit: Seq<u8>,
    ) -> bool {
        &&& after.info.total_pool == before.info.total_pool + before.info.ticket_price
        &&& after.info.participants_count == before.info.participants_count + 1
        &&& after.info.round_id == before.info.round_id
        &&& after.info.ticket_price == before.info.ticket_price
        &&& after.info.is_active == before.info.is_active
        &&& after.info.winner == before.info.winner
        &&& after.info.end_time == before.info.end_time
        &&& after.info.reveal_deadline == before.info.reveal_deadline
        &&& after.info.finalized == before.info.finalized
        &&& after.info.allow_multiple == before.info.allow_multiple
        &&& after.slots@.len() == before.slots@.len() + 1
        &&& after.slots@.subrange(0, before.slots@.len() as int) == before.slots@
        &&& after.slots@[before.slots@.len() as int]@ == who
        &&& lookup(after.commits@, who) == Some(commit)
        &&& forall|k: Seq<u8>| k != who ==> lookup(after.commits@, k) == lookup(before.commits@, k)
        &&& after.reveals == before.reveals
        &&& forall|k: Seq<u8>| listed(before.holders@, k) ==> listed(after.holders@, k)
        &&& !before.info.allow_multiple ==> listed(after.holders@, who)
    }

    /// Checks a purchase without making it, so that the payment can be taken
    /// before the ticket is recorded.
    pub fn check_ticket(&self, round_id: u64, participant: &Vec<u8>, amount: i128, now: u64) -> (r: Result<
        (),
        LotteryError,
    >)
        requires
            self.wf(),
        ensures
            match self.ticket_error(round_id, participant@, amount, now) {
                Some(e) => r == Err::<(), LotteryError>(e),
                None => r == Ok::<(), LotteryError>(()),
            },
    {
        let idx = match self.round_index(round_id) {
            Some(i) => i,
            None => {
                return Err(LotteryError::RoundNotFound);
            },
        };
        let rs = &self.rounds[idx];
        if !rs.info.is_active {
            return Err(LotteryError::RoundNotActive);
        }
        if now >= rs.info.end_time {
            return Err(LotteryError::SaleClosed);
        }
        if !rs.info.allow_multiple && contains_bytes(&rs.holders, participant) {
            return Err(LotteryError::DuplicateTicket);
        }
        if amount != rs.info.ticket_price {
            return Err(LotteryError::WrongAmount);
        }
        if (amount > 0 && rs.info.total_pool > i128::MAX - amount) || (amount < 0
            && rs.info.total_pool < i128::MIN - amount) || rs.info.participants_count == u64::MAX {
            return Err(LotteryError::PoolOverflow);
        }
        Ok(())
    }

    /// Records a paid ticket: the participant takes the next slot, the pool
    /// grows by the price and the commit digest is stored. Returns the
    /// ticket's index.
    pub fn buy_ticket(
        &mut self,
        round_id: u64,
        participant: &Vec<u8>,
        amount: i128,
        commit_hash: &Vec<u8>,
        now: u64,
    ) -> (r: Result<u64, LotteryError>)
        requires
            old(self).wf(),
        ensures
            final(self).wf(),
            match old(self).ticket_error(round_id, participant@, amount, now) {
                Some(e) => r == Err::<u64, LotteryError>(e) && *final(self) == *old(self),
                None => {
                    &&& r == Ok::<u64, LotteryError>(
                        (old(self).round_of(round_id).info.participants_count + 1) as u64,
                    )
                    &&& final(self).admin == old(self).admin
                    &&& final(self).token == old(self).token
                    &&& final(self).round_count == old(self).round_count
                    &&& final(self).active_round == old(self).active_round
                    &&& final(self).rounds@ == old(self).rounds@.update(
                        round_id - 1,
                        final(self).round_of(round_id),
                    )
                    &&& Self::ticket_recorded(
                        old(self).round_of(round_id),
                        final(self).round_of(round_id),
                        participant@,
                        commit_hash@,
                    )
                },
            },
    {
        match self.check_ticket(round_id, participant, amount, now) {
            Err(e) => {
                return Err(e);
            },
            Ok(()) => {},
        }
        let idx = match self.round_index(round_id) {
            Some(i) => i,
            None => {
                return Err(LotteryError::RoundNotFound);
            },
        };
        let ghost before = self.rounds@[idx as int];
        let mut rs = self.rounds.remove(idx);
        if !rs.info.allow_multiple {
            rs.holders.push(copy_bytes(participant));
            assert(rs.holders@[rs.holders@.len() - 1]@ == participant@);
        }
        assert forall|k: Seq<u8>| listed(before.holders@, k) implies listed(rs.holders@, k) by {
            let i = choose|i: int| 0 <= i < before.holders@.len() && #[trigger] before.holders@[i]@ == k;
            assert(rs.holders@[i]@ == k);
        }
        rs.info.total_pool = rs.info.total_pool + amount;
        rs.info.participants_count = rs.info.participants_count + 1;
        rs.slots.push(copy_bytes(participant));
        put_entry(&mut rs.commits, participant, commit_hash);
        let count = rs.info.participants_count;
        proof {
            let p = before.info.ticket_price as int;
            let c = before.info.participants_count as int;
            assert(p * (c + 1) == p * c + p) by (nonlinear_arith);
            assert(rs.slots@.subrange(0, before.slots@.len() as int) =~= before.slots@);
        }
        self.rounds.insert(idx, rs);
        proof {
            assert(self.rounds@ =~= old(self).rounds@.update(idx as int, rs));
        }
        Ok(count)
    }

    /// Why `reveal_seed` would be refused, if it would.
    pub open spec fn reveal_error(&self, round_id: u64, who: Seq<u8>, secret: Seq<u8>, now: u64) -> Option<
        LotteryError,
    > {
        if !self.has_round(round_id) {
            Some(LotteryError::RoundNotFound)
        } else {
            let rs = self.round_of(round_id);
            if now < rs.info.end_time {
                Some(LotteryError::RevealNotStarted)
            } else if now >= rs.info.reveal_deadline {
                Some(LotteryError::RevealClosed)
            } else {
                match lookup(rs.commits@, who) {
                    None => Some(LotteryError::NoCommit),
                    Some(c) => if commit_digest(secret, who, round_id) != c {
                        Some(LotteryError::CommitMismatch)
                    } else {
                        None
                    },
                }
            }
        }
    }

    /// Accepts a participant's secret when it matches their commit: the
    /// SHA-256 of `secret ‖ identity ‖ round_id` must equal the stored digest.
    /// A later matching reveal replaces an earlier one.
    pub fn reveal_seed(
        &mut self,
        env: &soroban_sdk::Env,
        round_id: u64,
        participant: &Vec<u8>,
        secret: &Vec<u8>,
        now: u64,
    ) -> (r: Result<(), LotteryError>)
        requires
            old(self).wf(),
        ensures
            final(self).wf(),
            match old(self).reveal_error(round_id, participant@, secret@, now) {
                Some(e) => r == Err::<(), LotteryError>(e) && *final(self) == *old(self),
                None => {
                    let before = old(self).round_of(round_id);
                    let after = final(self).round_of(round_id);
                    &&& r == Ok::<(), LotteryError>(())
                    &&& final(self).admin == old(self).admin
                    &&& final(self).token == old(self).token
                    &&& final(self).round_count == old(self).round_count
                    &&& final(self).active_round == old(self).active_round
                    &&& final(self).rounds@ == old(self).rounds@.update(round_id - 1, after)
                    &&& after.info == before.info
                    &&& after.slots == before.slots
                    &&& after.commits == before.commits
                    &&& after.holders == before.holders
                    &&& after.reveal_of(participant@) == Some(secret@)
                    &&& forall|k: Seq<u8>| k != participant@ ==> after.reveal_of(k) == before.reveal_of(k)
                },
            },
    {
        let idx = match self.round_index(round_id) {
            Some(i) => i,
            None => {
                return Err(LotteryError::RoundNotFound);
            },
        };
        {
            let rs = &self.rounds[idx];
            if now < rs.info.end_time {
                return Err(LotteryError::RevealNotStarted);
            }
            if now >= rs.info.reveal_deadline {
                return Err(LotteryError::RevealClosed);
            }
            let at = match find_entry(&rs.commits, participant) {
                Some(i) => i,
                None => {
                    return Err(LotteryError::NoCommit);
                },
            };
            let computed = commit_hash(env, secret, participant, round_id);
            if !same_bytes(&computed, &rs.commits[at].value) {
                return Err(LotteryError::CommitMismatch);
            }
        }
        let mut rs = self.rounds.remove(idx);
        put_entry(&mut rs.reveals, participant, secret);
        self.rounds.insert(idx, rs);
        proof {
            assert(self.rounds@ =~= old(self).rounds@.update(idx as int, rs));
        }
        Ok(())
    }

    /// Why `finalize_round` would be refused, if it would.
    pub open spec fn finalize_error(&self, round_id: u64, now: u64) -> Option<LotteryError> {
        if self.admin.is_none() {
            Some(LotteryError::NotInitialized)
        } else if !self.has_round(round_id) {
            Some(LotteryError::RoundNotFound)
        } else {
            let info = self.round_of(round_id).info;
            if !info.is_active {
                Some(LotteryError::RoundNotActive)
            } else if info.finalized {
                Some(LotteryError::AlreadyFinalized)
            } else if info.participants_count == 0 {
                Some(LotteryError::NoParticipants)
            } else if now < info.reveal_deadline {
                Some(LotteryError::RevealWindowOpen)
            } else {
                None
            }
        }
    }

    /// Draws the winner of a round without closing it, so that the prize can
    /// be paid before the round is finalized.
    ///
    /// Starting from 32 zero bytes, each slot in ticket order that has a
    /// reveal folds it in as `acc = sha256(acc ‖ secret)`; then
    /// `sha256(acc ‖ sequence)` (big-endian) is read, first eight bytes as a
    /// big-endian integer, modulo the ticket count, plus one.
    pub fn draw_winner(&self, env: &soroban_sdk::Env, round_id: u64, now: u64, sequence: u32) -> (r: Result<
        Draw,
        LotteryError,
    >)
        requires
            self.wf(),
        ensures
            match self.finalize_error(round_id, now) {
                Some(e) => r is Err && r->Err_0 == e,
                None => {
                    let rs = self.round_of(round_id);
                    &&& r is Ok
                    &&& r->Ok_0.winner_index == rs.draw_index(sequence)
                    &&& 1 <= r->Ok_0.winner_index <= rs.info.participants_count
                    &&& r->Ok_0.winner@ == rs.slots@[r->Ok_0.winner_index - 1]@
                    &&& r->Ok_0.reveal_count == rs.reveals_upto(rs.slots@.len())
                    &&& r->Ok_0.prize == rs.info.total_pool
                },
            },
    {
        if self.admin.is_none() {
            return Err(LotteryError::NotInitialized);
        }
        let idx = match self.round_index(round_id) {
            Some(i) => i,
            None => {
                return Err(LotteryError::RoundNotFound);
            },
        };
        let rs = &self.rounds[idx];
        if !rs.info.is_active {
            return Err(LotteryError::RoundNotActive);
        }
        if rs.info.finalized {
            return Err(LotteryError::AlreadyFinalized);
        }
        if rs.info.participants_count == 0 {
            return Err(LotteryError::NoParticipants);
        }
        if now < rs.info.reveal_deadline {
            return Err(LotteryError::RevealWindowOpen);
        }
        let mut acc: Vec<u8> = Vec::new();
        while acc.len() < 32
            invariant
                acc@.len() <= 32,
                forall|j: int| 0 <= j < acc@.len() ==> acc@[j] == 0u8,
            decreases 32 - acc@.len(),
        {
            acc.push(0u8);
        }
        assert(acc@ =~= zero_digest());
        let mut reveal_count: u64 = 0;
        let mut i: usize = 0;
        while i < rs.slots.len()
            invariant
                rs == self.round_of(round_id),
                rs.wf(),
                0 <= i <= rs.slots@.len(),
                reveal_count <= i,
                acc@ == rs.fold_upto(i as nat),
                reveal_count == rs.reveals_upto(i as nat),
            decreases rs.slots@.len() - i,
        {
            match find_entry(&rs.reveals, &rs.slots[i]) {
                Some(j) => {
                    let mut input = copy_bytes(&acc);
                    push_all(&mut input, &rs.reveals[j].value);
                    acc = sha256(env, &input);
                    reveal_count = reveal_count + 1;
                },
                None => {},
            }
            i = i + 1;
        }
        let mut input = copy_bytes(&acc);
        let tail = be_u32_bytes(sequence);
        push_all(&mut input, &tail);
        let fin = sha256(env, &input);
        let winner_index = select_index(&fin, rs.info.participants_count);
        let winner = copy_bytes(&rs.slots[(winner_index - 1) as usize]);
        Ok(Draw { winner_index, winner, reveal_count, prize: rs.info.total_pool })
    }

    /// Closes a round whose prize has been paid: draws the winner as
    /// `draw_winner` does, records it, and clears the active-round pointer.
    pub fn finalize_round(
        &mut self,
        env: &soroban_sdk::Env,
        round_id: u64,
        now: u64,
        sequence: u32,
    ) -> (r: Result<Vec<u8>, LotteryError>)
        requires
            old(self).wf(),
        ensures
            final(self).wf(),
            match old(self).finalize_error(round_id, now) {
                Some(e) => r == Err::<Vec<u8>, LotteryError>(e) && *final(self) == *old(self),
                None => {
                    let before = old(self).round_of(round_id);
                    let after = final(self).round_of(round_id);
                    &&& r is Ok
                    &&& r->Ok_0@ == before.slots@[before.draw_index(sequence) - 1]@
                    &&& final(self).admin == old(self).admin
                    &&& final(self).token == old(self).token
                    &&& final(self).round_count == old(self).round_count
                    &&& final(self).active_round == 0
                    &&& final(self).no_active_round()
                    &&& final(self).rounds@ == old(self).rounds@.update(round_id - 1, after)
                    &&& after.slots == before.slots
                    &&& after.commits == before.commits
                    &&& after.reveals == before.reveals
                    &&& after.holders == before.holders
                    &&& !after.info.is_active
                    &&& after.info.finalized
                    &&& after.info.winner is Some
                    &&& after.info.winner->Some_0@ == r->Ok_0@
                    &&& after.info.round_id == before.info.round_id
                    &&& after.info.ticket_price == before.info.ticket_price
                    &&& after.info.total_pool == before.info.total_pool
                    &&& after.info.participants_count == before.info.participants_count
                    &&& after.info.end_time == before.info.end_time
                    &&& after.info.reveal_deadline == before.info.reveal_deadline
                    &&& after.info.allow_multiple == before.info.allow_multiple
                },
            },
    {
        let draw = match self.draw_winner(env, round_id, now, sequence) {
            Ok(d) => d,
            Err(e) => {
                return Err(e);
            },
        };
        let idx = match self.round_index(round_id) {
            Some(i) => i,
            None => {
                return Err(LotteryError::RoundNotFound);
            },
        };
        let mut rs = self.rounds.remove(idx);
        rs.info.is_active = false;
        rs.info.winner = Some(copy_bytes(&draw.winner));
        rs.info.finalized = true;
        self.rounds.insert(idx, rs);
        self.active_round = 0;
        proof {
            assert(self.rounds@ =~= old(self).rounds@.update(idx as int, rs));
        }
        Ok(draw.winner)
    }

    /// The record of a round, or the sentinel record when there is none.
    pub fn view_round(&self, round_id: u64) -> (r: LotteryRound)
        requires
            self.wf(),
        ensures
            self.has_round(round_id) ==> r.same_as(&self.round_of(round_id).info),
            !self.has_round(round_id) ==> r.is_sentinel(),
    {
        let idx = match self.round_index(round_id) {
            Some(i) => i,
            None => {
                return LotteryRound::sentinel();
            },
        };
        let info = &self.rounds[idx].info;
        let winner = match &info.winner {
            Some(w) => Some(copy_bytes(w)),
            None => None,
        };
        LotteryRound {
            round_id: info.round_id,
            ticket_price: info.ticket_price,
            total_pool: info.total_pool,
            participants_count: info.participants_count,
            is_active: info.is_active,
            winner,
            end_time: info.end_time,
            reveal_deadline: info.reveal_deadline,
            finalized: info.finalized,
            allow_multiple: info.allow_multiple,
        }
    }
    /// The record under a round key, when the round exists.
    pub fn round(&self, key: &RoundBook) -> (r: Option<LotteryRound>)
        requires
            self.wf(),
        ensures
            match key {
                RoundBook::Round(id) => if self.has_round(*id) {
                    r is Some && r->Some_0.same_as(&self.round_of(*id).info)
                } else {
                    r is None
                },
            },
    {
        let RoundBook::Round(id) = key;
        if self.round_index(*id).is_some() {
            Some(self.view_round(*id))
        } else {
            None
        }
    }

    /// The identity in a participant slot, when the slot is taken.
    pub fn participant(&self, key: &ParticipantBook) -> (r: Option<Vec<u8>>)
        requires
            self.wf(),
        ensures
            match key {
                ParticipantBook::Participant(id, index) => if self.has_round(*id) && 1 <= *index
                    <= self.round_of(*id).slots@.len() {
                    r is Some && r->Some_0@ == self.round_of(*id).slots@[*index - 1]@
                } else {
                    r is None
                },
            },
    {
        let ParticipantBook::Participant(id, index) = key;
        match self.round_index(*id) {
            None => None,
            Some(i) => {
                let rs = &self.rounds[i];
                let n = rs.slots.len();
                if *index == 0 || *index > n as u64 {
                    None
                } else {
                    Some(copy_bytes(&rs.slots[(*index - 1) as usize]))
                }
            },
        }
    }

    /// The commit digest stored for an identity in a round.
    pub fn commit(&self, key: &CommitBook) -> (r: Option<Vec<u8>>)
        requires
            self.wf(),
        ensures
            match key {
                CommitBook::Commit(id, who) => if self.has_round(*id) {
                    match lookup(self.round_of(*id).commits@, who@) {
                        Some(c) => r is Some && r->Some_0@ == c,
                        None => r is None,
                    }
                } else {
                    r is None
                },
            },
    {
        let CommitBook::Commit(id, who) = key;
        match self.round_index(*id) {
            None => None,
            Some(i) => match find_entry(&self.rounds[i].commits, who) {
                Some(j) => Some(copy_bytes(&self.rounds[i].commits[j].value)),
                None => None,
            },
        }
    }

    /// The secret revealed by an identity in a round.
    pub fn revealed(&self, key: &RevealBook) -> (r: Option<Vec<u8>>)
        requires
            self.wf(),
        ensures
            match key {
                RevealBook::Reveal(id, who) => if self.has_round(*id) {
                    match self.round_of(*id).reveal_of(who@) {
                        Some(c) => r is Some && r->Some_0@ == c,
                        None => r is None,
                    }
                } else {
                    r is None
                },
            },
    {
        let RevealBook::Reveal(id, who) = key;
        match self.round_index(*id) {
            None => None,
            Some(i) => match find_entry(&self.rounds[i].reveals, who) {
                Some(j) => Some(copy_bytes(&self.rounds[i].reveals[j].value)),
                None => None,
            },
        }
    }

    /// Whether the one-ticket guard holds an identity in a round.
    pub fn has_ticket(&self, key: &ParticipantMap) -> (r: bool)
        requires
            self.wf(),
        ensures
            match key {
                ParticipantMap::HasTicket(id, who) => r == (self.has_round(*id) && listed(
                    self.round_of(*id).holders@,
                    who@,
                )),
            },
    {
        let ParticipantMap::HasTicket(id, who) = key;
        match self.round_index(*id) {
            None => false,
            Some(i) => contains_bytes(&self.rounds[i].holders, who),
        }
    }
}

} // verus!
