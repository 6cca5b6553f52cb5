use fitfreak::{
    close_contest, contest_address, contest_counter_address, create_contest, distribute_rewards,
    get_contest_info, join_contest, le_bytes, participant_address, split_pool, CloseContest,
    Contest, ContestCounter, CreateContest, DistributeRewards, FitFreakError, GetContestInfo,
    JoinContest, Key, Wallet,
};

fn key(b: u8) -> Key {
    Key::new([b; 32])
}

fn program() -> Key {
    key(200)
}

fn owner() -> Key {
    key(1)
}

/// A fresh creation context for `owner`'s next contest.
fn creation(counter: Option<ContestCounter>) -> CreateContest {
    let id = counter.map(|c| c.count).unwrap_or(0);
    CreateContest {
        program_id: program(),
        owner: owner(),
        contest_counter_key: contest_counter_address(&program(), &owner()).unwrap().0,
        contest_counter: counter,
        contest_key: contest_address(&program(), &owner(), id).unwrap().0,
        contest: None,
    }
}

/// Creates a contest with the window [1000, 2000) and returns it with its key.
fn new_contest(stake: u64, max: u8, min: u8) -> (Contest, Key) {
    let mut ctx = creation(None);
    create_contest(&mut ctx, "Steps".to_string(), stake, 1000, 2000, max, min).unwrap();
    (ctx.contest.unwrap(), ctx.contest_key)
}

fn joining(contest: Contest, contest_key: Key, vault: u64, who: u8) -> JoinContest {
    let participant = Wallet { key: key(who), lamports: 10_000 };
    JoinContest {
        program_id: program(),
        contest_key,
        contest,
        contest_lamports: vault,
        participant_account_key: participant_address(&program(), &contest_key, &participant.key)
            .unwrap()
            .0,
        participant_account: None,
        participant,
    }
}

/// Joins `n` distinct participants at time 1500; returns the contest and the vault.
fn join_n(mut contest: Contest, contest_key: Key, n: u8) -> (Contest, u64) {
    let mut vault = 0u64;
    for i in 0..n {
        let mut ctx = joining(contest, contest_key, vault, 10 + i);
        join_contest(&mut ctx, 1500).unwrap();
        contest = ctx.contest;
        vault = ctx.contest_lamports;
    }
    (contest, vault)
}

fn payout(contest: Contest, contest_key: Key, vault: u64) -> DistributeRewards {
    DistributeRewards {
        program_id: program(),
        contest_key,
        owner: contest.owner,
        contest,
        contest_lamports: vault,
        winner1_account: Wallet { key: key(21), lamports: 0 },
        winner2_account: Wallet { key: key(22), lamports: 0 },
        winner3_account: Wallet { key: key(23), lamports: 0 },
        owner_account: Wallet { key: owner(), lamports: 0 },
    }
}

#[test]
fn create_contest_initializes_record_and_counter() {
    let mut ctx = creation(None);
    let ev = create_contest(&mut ctx, "Run".to_string(), 100, 10, 20, 5, 3).unwrap();
    assert_eq!(ev.contest_id, ctx.contest_key);
    assert_eq!(ev.name, "Run");
    assert_eq!(ctx.contest_counter, Some(ContestCounter { count: 1 }));
    let c = ctx.contest.unwrap();
    assert_eq!(c.owner, owner());
    assert_eq!(c.contest_id, 0);
    assert_eq!(c.stake_amount, 100);
    assert_eq!((c.start_time, c.end_time), (10, 20));
    assert_eq!((c.max_participants, c.min_participants), (5, 3));
    assert_eq!(c.participant_count, 0);
    assert!(!c.rewards_distributed);
    assert!(c.is_active);
}

#[test]
fn create_contest_uses_counter_for_next_id() {
    let mut ctx = creation(Some(ContestCounter { count: 7 }));
    create_contest(&mut ctx, "Swim".to_string(), 5, 10, 20, 5, 1).unwrap();
    assert_eq!(ctx.contest.unwrap().contest_id, 7);
    assert_eq!(ctx.contest_counter, Some(ContestCounter { count: 8 }));
}

#[test]
fn create_contest_rejects_address_of_other_id() {
    let mut ctx = creation(None);
    ctx.contest_key = contest_address(&program(), &owner(), 1).unwrap().0;
    let r = create_contest(&mut ctx, "Run".to_string(), 100, 10, 20, 5, 3);
    assert_eq!(r.unwrap_err(), FitFreakError::AccountMismatch);
    assert!(ctx.contest.is_none());
    assert!(ctx.contest_counter.is_none());
}

#[test]
fn create_contest_rejects_existing_record() {
    let mut ctx = creation(None);
    create_contest(&mut ctx, "Run".to_string(), 100, 10, 20, 5, 3).unwrap();
    ctx.contest_counter = None;
    let r = create_contest(&mut ctx, "Again".to_string(), 100, 10, 20, 5, 3);
    assert_eq!(r.unwrap_err(), FitFreakError::AccountAlreadyExists);
}

#[test]
fn create_contest_rejects_empty_window() {
    let mut ctx = creation(None);
    let r = create_contest(&mut ctx, "Run".to_string(), 100, 20, 20, 5, 3);
    assert_eq!(r.unwrap_err(), FitFreakError::InvalidSchedule);
    assert!(ctx.contest.is_none());
}

#[test]
fn join_counts_until_full() {
    let (c, k) = new_contest(100, 3, 1);
    let (c, vault) = join_n(c, k, 3);
    assert_eq!(c.participant_count, 3);
    assert_eq!(vault, 300);
    let mut ctx = joining(c, k, vault, 99);
    assert_eq!(join_contest(&mut ctx, 1500).unwrap_err(), FitFreakError::ContestFull);
    assert_eq!(ctx.contest.participant_count, 3);
    assert_eq!(ctx.contest_lamports, 300);
    assert!(ctx.participant_account.is_none());
}

#[test]
fn join_moves_stake_and_records_participant() {
    let (c, k) = new_contest(100, 3, 1);
    let mut ctx = joining(c, k, 0, 10);
    let ev = join_contest(&mut ctx, 1000).unwrap();
    assert_eq!(ev.contest_id, k);
    assert_eq!(ev.participant, key(10));
    assert_eq!(ctx.participant.lamports, 9_900);
    assert_eq!(ctx.contest_lamports, 100);
    let rec = ctx.participant_account.unwrap();
    assert_eq!(rec.contest, k);
    assert_eq!(rec.participant, key(10));
    assert_eq!(rec.joined_at, 1000);
}

#[test]
fn join_before_start_fails_without_change() {
    let (c, k) = new_contest(100, 3, 1);
    let mut ctx = joining(c, k, 0, 10);
    assert_eq!(join_contest(&mut ctx, 999).unwrap_err(), FitFreakError::ContestNotStarted);
    assert_eq!(ctx.participant.lamports, 10_000);
    assert_eq!(ctx.contest_lamports, 0);
    assert_eq!(ctx.contest.participant_count, 0);
    assert!(ctx.participant_account.is_none());
}

#[test]
fn join_at_end_fails_without_change() {
    let (c, k) = new_contest(100, 3, 1);
    let mut ctx = joining(c, k, 0, 10);
    assert_eq!(join_contest(&mut ctx, 2000).unwrap_err(), FitFreakError::ContestEnded);
    assert_eq!(ctx.participant.lamports, 10_000);
    assert_eq!(ctx.contest_lamports, 0);
    assert_eq!(ctx.contest.participant_count, 0);
    assert!(ctx.participant_account.is_none());
}

#[test]
fn join_twice_fails_already_exists() {
    let (c, k) = new_contest(100, 3, 1);
    let mut ctx = joining(c, k, 0, 10);
    join_contest(&mut ctx, 1500).unwrap();
    assert_eq!(join_contest(&mut ctx, 1501).unwrap_err(), FitFreakError::AccountAlreadyExists);
    assert_eq!(ctx.contest.participant_count, 1);
}

#[test]
fn join_rejects_foreign_record_address() {
    let (c, k) = new_contest(100, 3, 1);
    let mut ctx = joining(c, k, 0, 10);
    ctx.participant_account_key = key(77);
    assert_eq!(join_contest(&mut ctx, 1500).unwrap_err(), FitFreakError::AccountMismatch);
}

#[test]
fn join_without_funds_fails() {
    let (c, k) = new_contest(100, 3, 1);
    let mut ctx = joining(c, k, 0, 10);
    ctx.participant.lamports = 99;
    assert_eq!(join_contest(&mut ctx, 1500).unwrap_err(), FitFreakError::InsufficientFunds);
    assert_eq!(ctx.participant.lamports, 99);
}

#[test]
fn join_overflowing_vault_fails() {
    let (c, k) = new_contest(100, 3, 1);
    let mut ctx = joining(c, k, u64::MAX - 50, 10);
    assert_eq!(join_contest(&mut ctx, 1500).unwrap_err(), FitFreakError::ArithmeticOverflow);
}

#[test]
fn join_closed_contest_fails() {
    let (c, k) = new_contest(100, 3, 1);
    let mut close = CloseContest { contest: c, owner: owner() };
    close_contest(&mut close).unwrap();
    assert!(!close.contest.is_active);
    let mut ctx = joining(close.contest, k, 0, 10);
    assert_eq!(join_contest(&mut ctx, 1500).unwrap_err(), FitFreakError::ContestClosed);
}

#[test]
fn close_by_stranger_is_unauthorized() {
    let (c, _) = new_contest(100, 3, 1);
    let mut close = CloseContest { contest: c, owner: key(9) };
    assert_eq!(close_contest(&mut close).unwrap_err(), FitFreakError::Unauthorized);
    assert!(close.contest.is_active);
}

#[test]
fn distribute_four_of_five_pays_split() {
    let (c, k) = new_contest(100, 5, 3);
    let (c, vault) = join_n(c, k, 4);
    assert_eq!(c.participant_count, 4);
    assert_eq!(vault, 400);
    let mut ctx = payout(c, k, vault);
    let ev = distribute_rewards(&mut ctx, 2001, key(21), key(22), key(23)).unwrap();
    assert_eq!(ev.contest_id, k);
    assert_eq!(ctx.winner1_account.lamports, 160);
    assert_eq!(ctx.winner2_account.lamports, 120);
    assert_eq!(ctx.winner3_account.lamports, 80);
    assert_eq!(ctx.owner_account.lamports, 40);
    assert_eq!(ctx.contest_lamports, 0);
    assert_eq!(160 + 120 + 80 + 40, 4 * 100);
    assert!(ctx.contest.rewards_distributed);
}

#[test]
fn distribute_under_quorum_fails() {
    let (c, k) = new_contest(100, 5, 3);
    let (c, vault) = join_n(c, k, 2);
    let mut ctx = payout(c, k, vault);
    let r = distribute_rewards(&mut ctx, 2001, key(21), key(22), key(23));
    assert_eq!(r.unwrap_err(), FitFreakError::NotEnoughParticipants);
    assert_eq!(ctx.contest_lamports, 200);
    assert!(!ctx.contest.rewards_distributed);
}

#[test]
fn distribute_twice_fails_and_pays_nothing() {
    let (c, k) = new_contest(100, 5, 3);
    let (c, vault) = join_n(c, k, 3);
    let mut ctx = payout(c, k, vault);
    distribute_rewards(&mut ctx, 2001, key(21), key(22), key(23)).unwrap();
    let r = distribute_rewards(&mut ctx, 3000, key(21), key(22), key(23));
    assert_eq!(r.unwrap_err(), FitFreakError::RewardsAlreadyDistributed);
    assert_eq!(ctx.winner1_account.lamports, 120);
    assert_eq!(ctx.winner2_account.lamports, 90);
    assert_eq!(ctx.winner3_account.lamports, 60);
    assert_eq!(ctx.owner_account.lamports, 30);
    assert_eq!(ctx.contest_lamports, 0);
}

#[test]
fn distribute_by_stranger_is_unauthorized() {
    let (c, k) = new_contest(100, 5, 3);
    let (c, vault) = join_n(c, k, 1);
    let mut ctx = payout(c, k, vault);
    ctx.owner = key(9);
    // before the end, under quorum: still Unauthorized
    let r = distribute_rewards(&mut ctx, 1500, key(21), key(22), key(23));
    assert_eq!(r.unwrap_err(), FitFreakError::Unauthorized);
    assert_eq!(ctx.contest_lamports, 100);
    assert_eq!(ctx.owner_account.lamports, 0);
}

#[test]
fn distribute_at_end_time_is_too_early() {
    let (c, k) = new_contest(100, 5, 3);
    let (c, vault) = join_n(c, k, 3);
    let mut ctx = payout(c, k, vault);
    let r = distribute_rewards(&mut ctx, 2000, key(21), key(22), key(23));
    assert_eq!(r.unwrap_err(), FitFreakError::ContestStillActive);
    assert_eq!(ctx.contest_lamports, 300);
}

#[test]
fn distribute_rejects_wrong_winner_account() {
    let (c, k) = new_contest(100, 5, 3);
    let (c, vault) = join_n(c, k, 3);
    let mut ctx = payout(c, k, vault);
    let r = distribute_rewards(&mut ctx, 2001, key(21), key(24), key(23));
    assert_eq!(r.unwrap_err(), FitFreakError::AccountMismatch);
}

#[test]
fn distribute_rejects_repeated_winner_account() {
    let (c, k) = new_contest(100, 5, 3);
    let (c, vault) = join_n(c, k, 3);
    let mut ctx = payout(c, k, vault);
    ctx.winner2_account.key = key(21);
    let r = distribute_rewards(&mut ctx, 2001, key(21), key(21), key(23));
    assert_eq!(r.unwrap_err(), FitFreakError::AccountMismatch);
}

#[test]
fn distribute_with_short_escrow_fails() {
    let (c, k) = new_contest(100, 5, 3);
    let (c, _) = join_n(c, k, 3);
    let mut ctx = payout(c, k, 299);
    let r = distribute_rewards(&mut ctx, 2001, key(21), key(22), key(23));
    assert_eq!(r.unwrap_err(), FitFreakError::InsufficientFunds);
}

#[test]
fn distribute_with_overflowing_pool_fails() {
    let (c, k) = new_contest(u64::MAX / 2, 5, 3);
    let mut c = c;
    c.participant_count = 3;
    let mut ctx = payout(c, k, u64::MAX);
    let r = distribute_rewards(&mut ctx, 2001, key(21), key(22), key(23));
    assert_eq!(r.unwrap_err(), FitFreakError::ArithmeticOverflow);
}

#[test]
fn split_pool_gives_rounding_to_admin() {
    let p = split_pool(7);
    assert_eq!((p.first, p.second, p.third, p.admin_cut), (2, 2, 1, 2));
    let p = split_pool(400);
    assert_eq!((p.first, p.second, p.third, p.admin_cut), (160, 120, 80, 40));
    let p = split_pool(0);
    assert_eq!((p.first, p.second, p.third, p.admin_cut), (0, 0, 0, 0));
    let p = split_pool(u64::MAX);
    assert_eq!(p.first + p.second + p.third + p.admin_cut, u64::MAX);
}

#[test]
fn contest_info_mirrors_record() {
    let (c, _) = new_contest(100, 5, 3);
    let info = get_contest_info(&GetContestInfo { contest: c }).unwrap();
    assert_eq!(info.owner, owner());
    assert_eq!(info.contest_id, 0);
    assert_eq!(info.name, "Steps");
    assert_eq!(info.stake_amount, 100);
    assert_eq!((info.start_time, info.end_time), (1000, 2000));
    assert_eq!((info.max_participants, info.min_participants), (5, 3));
    assert_eq!(info.participant_count, 0);
    assert!(!info.rewards_distributed);
    assert!(info.is_active);
}

#[test]
fn le_bytes_orders_low_byte_first() {
    assert_eq!(le_bytes(0x0102_0304_0506_0708), vec![8, 7, 6, 5, 4, 3, 2, 1]);
    assert_eq!(le_bytes(0), vec![0; 8]);
}

#[test]
fn key_equality_compares_all_bytes() {
    let mut b = [3u8; 32];
    assert_eq!(Key::new(b), Key::new([3u8; 32]));
    b[31] = 4;
    assert_ne!(Key::new(b), Key::new([3u8; 32]));
    assert_eq!(Key::new(b).to_seed(), b.to_vec());
}

#[test]
fn derived_addresses_match_runtime_derivation() {
    let pid = anchor_lang::prelude::Pubkey::new_from_array(program().bytes);
    let own = owner().bytes;
    let (want, bump) = anchor_lang::prelude::Pubkey::find_program_address(
        &[b"contest", &own, &5u64.to_le_bytes()],
        &pid,
    );
    let (got, got_bump) = contest_address(&program(), &owner(), 5).unwrap();
    assert_eq!(got.bytes, want.to_bytes());
    assert_eq!(got_bump, bump);
    let (want, _) =
        anchor_lang::prelude::Pubkey::find_program_address(&[b"contest_counter", &own], &pid);
    assert_eq!(contest_counter_address(&program(), &owner()).unwrap().0.bytes, want.to_bytes());
    let (want, _) = anchor_lang::prelude::Pubkey::find_program_address(
        &[b"participant", &[9u8; 32], &own],
        &pid,
    );
    assert_eq!(participant_address(&program(), &key(9), &owner()).unwrap().0.bytes, want.to_bytes());
    assert_ne!(contest_address(&program(), &owner(), 0).unwrap().0, owner());
}

#[test]
fn error_messages_are_specific() {
    assert_eq!(FitFreakError::ContestFull.message(), "Contest is full");
    assert_eq!(FitFreakError::Unauthorized.message(), "Unauthorized");
}
