use lottery::{
    commit_hash, CommitBook, ErrorKind, LotteryContract, LotteryError, ParticipantBook,
    ParticipantMap, RoundBook,
};
use soroban_sdk::Env;

const HOUR: u64 = 3600;

fn who(n: usize) -> Vec<u8> {
    format!("GUSER{}", n).into_bytes()
}

fn started() -> (Env, LotteryContract) {
    let env = Env::default();
    let mut lottery = LotteryContract::new();
    lottery.init_admin(&b"GADMIN".to_vec(), &b"CTOKEN".to_vec()).unwrap();
    (env, lottery)
}

/// A one-hour round with price 100 and one ticket for each seed.
fn round_with(env: &Env, lottery: &mut LotteryContract, seeds: &[&[u8]]) -> u64 {
    let round_id = lottery.create_round(100, 1, false, 0).unwrap();
    for (i, seed) in seeds.iter().enumerate() {
        let c = commit_hash(env, &seed.to_vec(), &who(i), round_id);
        lottery.buy_ticket(round_id, &who(i), 100, &c, 0).unwrap();
    }
    round_id
}

fn hex(bytes: &[u8]) -> String {
    bytes.iter().map(|b| format!("{:02x}", b)).collect()
}

#[test]
fn commit_hash_is_sha256_of_the_preimage() {
    let env = Env::default();
    let d = commit_hash(&env, &Vec::new(), &Vec::new(), 0);
    assert_eq!(hex(&d), "af5570f5a1810b7af78caf4bc70a660f0df51e42baf91d4de5b2328de0e83dfc");
    let a = commit_hash(&env, &b"s".to_vec(), &who(0), 1);
    let b = commit_hash(&env, &b"s".to_vec(), &who(0), 2);
    assert_eq!(a.len(), 32);
    assert_ne!(a, b);
}

#[test]
fn pool_is_price_times_tickets() {
    let (env, mut lottery) = started();
    let round_id = lottery.create_round(7, 2, true, 10).unwrap();
    for n in 1..=4u64 {
        let c = commit_hash(&env, &b"x".to_vec(), &who(0), round_id);
        assert_eq!(lottery.buy_ticket(round_id, &who(0), 7, &c, 10), Ok(n));
        let r = lottery.view_round(round_id);
        assert_eq!(r.total_pool, 7 * r.participants_count as i128);
    }
    assert_eq!(lottery.view_round(round_id).total_pool, 28);
}

#[test]
fn create_round_allowed_again_after_finalize() {
    let (env, mut lottery) = started();
    let round_id = round_with(&env, &mut lottery, &[b"a"]);
    assert_eq!(lottery.create_round(5, 1, false, 0), Err(LotteryError::ActiveRoundExists));
    lottery.finalize_round(&env, round_id, 25 * HOUR, 3).unwrap();
    assert_eq!(lottery.active_round, 0);
    assert_eq!(lottery.create_round(5, 1, false, 25 * HOUR), Ok(2));
    assert_eq!(lottery.active_round, 2);
}

#[test]
fn second_ticket_refused_whatever_the_amount() {
    let (env, mut lottery) = started();
    let round_id = round_with(&env, &mut lottery, &[b"a"]);
    let c = commit_hash(&env, &b"b".to_vec(), &who(0), round_id);
    for amount in [100i128, 50, 0, 1000] {
        let err = lottery.buy_ticket(round_id, &who(0), amount, &c, 0).unwrap_err();
        assert_eq!(err, LotteryError::DuplicateTicket);
        assert_eq!(err.kind(), ErrorKind::PolicyViolation);
    }
    assert!(lottery.has_ticket(&ParticipantMap::HasTicket(round_id, who(0))));
    assert!(!lottery.has_ticket(&ParticipantMap::HasTicket(round_id, who(1))));
}

#[test]
fn reveal_refused_after_one_bit_flip() {
    let (env, mut lottery) = started();
    let round_id = round_with(&env, &mut lottery, &[b"secret"]);
    let mut flipped = b"secret".to_vec();
    flipped[0] ^= 1;
    assert_eq!(
        lottery.reveal_seed(&env, round_id, &who(0), &flipped, HOUR),
        Err(LotteryError::CommitMismatch)
    );
    assert_eq!(lottery.reveal_seed(&env, round_id, &who(0), &b"secret".to_vec(), HOUR), Ok(()));
}

#[test]
fn draw_exact_and_deterministic() {
    let (env, mut lottery) = started();
    let round_id = round_with(&env, &mut lottery, &[b"seed_0", b"seed_1", b"seed_2"]);
    for (i, s) in [b"seed_0", b"seed_1", b"seed_2"].iter().enumerate() {
        lottery.reveal_seed(&env, round_id, &who(i), &s.to_vec(), HOUR).unwrap();
    }
    let now = 25 * HOUR;
    let first = lottery.draw_winner(&env, round_id, now, 0).unwrap();
    let again = lottery.draw_winner(&env, round_id, now, 0).unwrap();
    assert_eq!(first.winner_index, 3);
    assert_eq!(again.winner_index, 3);
    assert_eq!(first.winner, who(2));
    assert_eq!(first.reveal_count, 3);
    assert_eq!(first.prize, 300);
    let other = lottery.draw_winner(&env, round_id, now, 7).unwrap();
    assert_eq!(other.winner_index, 3);
}

#[test]
fn draw_without_reveals() {
    let (env, mut lottery) = started();
    let round_id = round_with(&env, &mut lottery, &[b"a", b"b", b"c"]);
    let d0 = lottery.draw_winner(&env, round_id, 25 * HOUR, 0).unwrap();
    assert_eq!(d0.reveal_count, 0);
    assert_eq!(d0.winner_index, 3);
    let d7 = lottery.draw_winner(&env, round_id, 25 * HOUR, 7).unwrap();
    assert_eq!(d7.winner_index, 2);
    assert_eq!(d7.winner, who(1));
    assert_eq!(lottery.finalize_round(&env, round_id, 25 * HOUR, 7), Ok(who(1)));
}

#[test]
fn two_of_three_reveal() {
    let (env, mut lottery) = started();
    let round_id = round_with(&env, &mut lottery, &[b"seed_0", b"seed_1", b"seed_2"]);
    lottery.reveal_seed(&env, round_id, &who(0), &b"seed_0".to_vec(), HOUR).unwrap();
    lottery.reveal_seed(&env, round_id, &who(1), &b"seed_1".to_vec(), HOUR).unwrap();
    let d = lottery.draw_winner(&env, round_id, 25 * HOUR, 0).unwrap();
    assert_eq!(d.reveal_count, 2);
    assert_eq!(d.winner_index, 1);
    assert_eq!(d.winner, who(0));
}

#[test]
fn finalize_early_refused_even_with_all_reveals() {
    let (env, mut lottery) = started();
    let round_id = round_with(&env, &mut lottery, &[b"a"]);
    lottery.reveal_seed(&env, round_id, &who(0), &b"a".to_vec(), HOUR).unwrap();
    let err = lottery.finalize_round(&env, round_id, 25 * HOUR - 1, 0).unwrap_err();
    assert_eq!(err, LotteryError::RevealWindowOpen);
    assert_eq!(err.kind(), ErrorKind::TemporalViolation);
    assert!(lottery.view_round(round_id).is_active);
}

#[test]
fn finalized_round_record() {
    let (env, mut lottery) = started();
    let round_id = round_with(&env, &mut lottery, &[b"a", b"b"]);
    let w = lottery.finalize_round(&env, round_id, 25 * HOUR, 1).unwrap();
    let r = lottery.round(&RoundBook::Round(round_id)).unwrap();
    assert!(r.finalized && !r.is_active);
    assert_eq!(r.winner, Some(w));
    assert_eq!(
        lottery.finalize_round(&env, round_id, 25 * HOUR, 1),
        Err(LotteryError::RoundNotActive)
    );
    assert_eq!(
        lottery.buy_ticket(round_id, &who(5), 100, &Vec::new(), 0),
        Err(LotteryError::RoundNotActive)
    );
}

#[test]
fn missing_round_is_sentinel() {
    let (_env, lottery) = started();
    let r = lottery.view_round(9);
    assert_eq!(r.round_id, 0);
    assert!(!r.is_active);
    assert!(lottery.round(&RoundBook::Round(0)).is_none());
}

#[test]
fn slot_and_commit_records() {
    let (env, mut lottery) = started();
    let round_id = round_with(&env, &mut lottery, &[b"a", b"b"]);
    assert_eq!(lottery.participant(&ParticipantBook::Participant(round_id, 1)), Some(who(0)));
    assert_eq!(lottery.participant(&ParticipantBook::Participant(round_id, 2)), Some(who(1)));
    assert_eq!(lottery.participant(&ParticipantBook::Participant(round_id, 3)), None);
    assert_eq!(lottery.participant(&ParticipantBook::Participant(round_id, 0)), None);
    let c = commit_hash(&env, &b"b".to_vec(), &who(1), round_id);
    assert_eq!(lottery.commit(&CommitBook::Commit(round_id, who(1))), Some(c));
    assert_eq!(lottery.commit(&CommitBook::Commit(round_id, who(3))), None);
}

#[test]
fn each_refusal() {
    let (env, mut lottery) = started();
    assert_eq!(lottery.create_round(1, u64::MAX, false, 0), Err(LotteryError::TimeOverflow));
    assert_eq!(
        lottery.buy_ticket(4, &who(0), 1, &Vec::new(), 0),
        Err(LotteryError::RoundNotFound)
    );
    assert_eq!(LotteryError::RoundNotFound.kind(), ErrorKind::NotFound);
    let round_id = lottery.create_round(i128::MAX, 1, true, 0).unwrap();
    let c = commit_hash(&env, &b"a".to_vec(), &who(0), round_id);
    assert_eq!(lottery.buy_ticket(round_id, &who(0), i128::MAX, &c, 0), Ok(1));
    assert_eq!(
        lottery.buy_ticket(round_id, &who(1), i128::MAX, &c, 0),
        Err(LotteryError::PoolOverflow)
    );
    assert_eq!(
        lottery.buy_ticket(round_id, &who(1), i128::MAX, &c, HOUR),
        Err(LotteryError::SaleClosed)
    );
    assert_eq!(
        lottery.reveal_seed(&env, round_id, &who(0), &b"a".to_vec(), HOUR - 1),
        Err(LotteryError::RevealNotStarted)
    );
    assert_eq!(
        lottery.reveal_seed(&env, round_id, &who(0), &b"a".to_vec(), 25 * HOUR),
        Err(LotteryError::RevealClosed)
    );
    assert_eq!(
        lottery.reveal_seed(&env, round_id, &who(1), &b"a".to_vec(), HOUR),
        Err(LotteryError::NoCommit)
    );
    assert_eq!(
        lottery.finalize_round(&env, 3, 25 * HOUR, 0),
        Err(LotteryError::RoundNotFound)
    );
}

#[test]
fn select_index_reads_eight_bytes_big_endian() {
    let mut d = vec![0u8; 32];
    d[7] = 5;
    assert_eq!(lottery::select_index(&d, 3), 3);
    d[6] = 1;
    assert_eq!(lottery::select_index(&d, 7), (261 % 7) + 1);
    d[0] = 0xff;
    assert_eq!(lottery::select_index(&d, 1), 1);
    let all = vec![0xffu8; 32];
    assert_eq!(lottery::select_index(&all, 10), (u64::MAX % 10) + 1);
}

#[test]
fn same_bytes_compares_contents() {
    assert!(lottery::same_bytes(&b"abc".to_vec(), &b"abc".to_vec()));
    assert!(!lottery::same_bytes(&b"abc".to_vec(), &b"abd".to_vec()));
    assert!(!lottery::same_bytes(&b"ab".to_vec(), &b"abc".to_vec()));
}
