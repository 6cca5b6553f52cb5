use vstd::prelude::*;

use crate::address::{
    contest_address, contest_counter_address, contest_seeds, counter_seeds, participant_address,
    participant_seeds, program_address_of,
};
use crate::key::Key;
use crate::rewards::{lemma_split_conserves, percent_of, prizes_of, split_pool, Prizes};
use crate::state::{
    Contest, ContestCounter, ContestCreated, ContestInfo, FitFreakError, ParticipantAccount,
    ParticipantJoined, RewardsDistributed, Wallet,
};

verus! {

/// Whether `key` is the address derived from `seeds` under `program`.
pub open spec fn derives(seeds: Seq<Seq<u8>>, program: Seq<u8>, key: Seq<u8>) -> bool {
    program_address_of(seeds, program) matches Some(a) && a.0 == key
}

/// The bump of the address derived from `seeds` under `program`.
pub open spec fn bump_of(seeds: Seq<Seq<u8>>, program: Seq<u8>) -> u8 {
    program_address_of(seeds, program).unwrap().1
}

/// Whether a derivation yielded an address, and that address is `key`.
fn matches_derived(found: Option<(Key, u8)>, key: &Key) -> (r: bool)
    ensures
        r == (found matches Some(a) && a.0@ == key@),
{
    match found {
        Some(a) => a.0 == *key,
        None => false,
    }
}

// ---------------------------------------------------------------- create

/// The accounts of a contest creation.
pub struct CreateContest {
    pub program_id: Key,
    /// The creator, who becomes the contest's authority.
    pub owner: Key,
    pub contest_counter_key: Key,
    /// The owner's counter; `None` until the owner's first contest.
    pub contest_counter: Option<ContestCounter>,
    pub contest_key: Key,
    /// What is stored at `contest_key`; `None` when nothing is.
    pub contest: Option<Contest>,
}

/// The identifier the next contest of this owner receives.
pub open spec fn next_id(ctx: CreateContest) -> u64 {
    match ctx.contest_counter {
        Some(c) => c.count,
        None => 0,
    }
}

/// Why a creation is refused, if it is.
pub open spec fn create_error(ctx: CreateContest, start_time: i64, end_time: i64) -> Option<
    FitFreakError,
> {
    if !derives(counter_seeds(ctx.owner@), ctx.program_id@, ctx.contest_counter_key@) {
        Some(FitFreakError::AccountMismatch)
    } else if !derives(
        contest_seeds(ctx.owner@, next_id(ctx)),
        ctx.program_id@,
        ctx.contest_key@,
    ) {
        Some(FitFreakError::AccountMismatch)
    } else if ctx.contest is Some {
        Some(FitFreakError::AccountAlreadyExists)
    } else if end_time <= start_time {
        Some(FitFreakError::InvalidSchedule)
    } else if next_id(ctx) == u64::MAX {
        Some(FitFreakError::ArithmeticOverflow)
    } else {
        None
    }
}

/// The accounts after a successful creation.
pub open spec fn created(
    ctx: CreateContest,
    name: String,
    stake_amount: u64,
    start_time: i64,
    end_time: i64,
    max_participants: u8,
    min_participants: u8,
) -> CreateContest {
    CreateContest {
        contest_counter: Some(ContestCounter { count: (next_id(ctx) + 1) as u64 }),
        contest: Some(
            Contest {
                owner: ctx.owner,
                contest_id: next_id(ctx),
                name,
                stake_amount,
                start_time,
                end_time,
                max_participants,
                min_participants,
                participant_count: 0,
                rewards_distributed: false,
                is_active: true,
                bump: bump_of(contest_seeds(ctx.owner@, next_id(ctx)), ctx.program_id@),
            },
        ),
        ..ctx
    }
}

/// Creates a contest at the address derived from the owner and the owner's
/// counter, and advances the counter.
pub fn create_contest(
    ctx: &mut CreateContest,
    name: String,
    stake_amount: u64,
    start_time: i64,
    end_time: i64,
    max_participants: u8,
    min_participants: u8,
) -> (r: Result<ContestCreated, FitFreakError>)
    ensures
        match create_error(*old(ctx), start_time, end_time) {
            Some(e) => r == Err::<ContestCreated, FitFreakError>(e) && *final(ctx) == *old(ctx),
            None => {
                &&& r matches Ok(ev) && ev.contest_id@ == old(ctx).contest_key@ && ev.name@
                    == name@
                &&& *final(ctx) == created(
                    *old(ctx),
                    name,
                    stake_amount,
                    start_time,
                    end_time,
                    max_participants,
                    min_participants,
                )
            },
        },
        r is Ok ==> (final(ctx).contest matches Some(c) && c.wf()),
{
    let counter_found = contest_counter_address(&ctx.program_id, &ctx.owner);
    if !matches_derived(counter_found, &ctx.contest_counter_key) {
        return Err(FitFreakError::AccountMismatch);
    }
    let contest_id: u64 = match &ctx.contest_counter {
        Some(c) => c.count,
        None => 0,
    };
    let contest_found = contest_address(&ctx.program_id, &ctx.owner, contest_id);
    if !matches_derived(contest_found, &ctx.contest_key) {
        return Err(FitFreakError::AccountMismatch);
    }
    if ctx.contest.is_some() {
        return Err(FitFreakError::AccountAlreadyExists);
    }
    if end_time <= start_time {
        return Err(FitFreakError::InvalidSchedule);
    }
    if contest_id == u64::MAX {
        return Err(FitFreakError::ArithmeticOverflow);
    }
    let bump: u8 = match contest_found {
        Some(a) => a.1,
        None => 0,
    };
    let event = ContestCreated { contest_id: ctx.contest_key, name: name.clone() };
    ctx.contest_counter = Some(ContestCounter { count: contest_id + 1 });
    ctx.contest = Some(
        Contest {
            owner: ctx.owner,
            contest_id,
            name,
            stake_amount,
            start_time,
            end_time,
            max_participants,
            min_participants,
            participant_count: 0,
            rewards_distributed: false,
            is_active: true,
            bump,
        },
    );
    Ok(event)
}

// ---------------------------------------------------------------- join

/// The accounts of a join.
pub struct JoinContest {
    pub program_id: Key,
    pub contest_key: Key,
    pub contest: Contest,
    /// The balance held by the contest account: its escrow.
    pub contest_lamports: u64,
    pub participant_account_key: Key,
    /// What is stored at `participant_account_key`; `None` when nothing is.
    pub participant_account: Option<ParticipantAccount>,
    /// The joining participant, who pays the stake.
    pub participant: Wallet,
}

/// Why a join at time `now` is refused, if it is.
pub open spec fn join_error(ctx: JoinContest, now: i64) -> Option<FitFreakError> {
    let c = ctx.contest;
    if now < c.start_time {
        Some(FitFreakError::ContestNotStarted)
    } else if now >= c.end_time {
        Some(FitFreakError::ContestEnded)
    } else if c.participant_count >= c.max_participants {
        Some(FitFreakError::ContestFull)
    } else if !derives(contest_seeds(c.owner@, c.contest_id), ctx.program_id@, ctx.contest_key@) {
        Some(FitFreakError::AccountMismatch)
    } else if !c.is_active {
        Some(FitFreakError::ContestClosed)
    } else if !derives(
        participant_seeds(ctx.contest_key@, ctx.participant.key@),
        ctx.program_id@,
        ctx.participant_account_key@,
    ) {
        Some(FitFreakError::AccountMismatch)
    } else if ctx.participant_account is Some {
        Some(FitFreakError::AccountAlreadyExists)
    } else if ctx.participant.lamports < c.stake_amount {
        Some(FitFreakError::InsufficientFunds)
    } else if ctx.contest_lamports + c.stake_amount > u64::MAX {
        Some(FitFreakError::ArithmeticOverflow)
    } else {
        None
    }
}

/// The contest with one more participant.
pub open spec fn joined(c: Contest) -> Contest {
    Contest { participant_count: (c.participant_count + 1) as u8, ..c }
}

/// The accounts after a successful join at time `now`.
pub open spec fn join_effect(ctx: JoinContest, now: i64) -> JoinContest {
    JoinContest {
        contest: joined(ctx.contest),
        contest_lamports: (ctx.contest_lamports + ctx.contest.stake_amount) as u64,
        participant_account: Some(
            ParticipantAccount {
                contest: ctx.contest_key,
                participant: ctx.participant.key,
                joined_at: now,
                bump: bump_of(
                    participant_seeds(ctx.contest_key@, ctx.participant.key@),
                    ctx.program_id@,
                ),
            },
        ),
        participant: Wallet {
            lamports: (ctx.participant.lamports - ctx.contest.stake_amount) as u64,
            ..ctx.participant
        },
        ..ctx
    }
}

/// Adds the participant to the contest at time `now`: moves the stake from
/// the participant into the contest's escrow and records the join.
pub fn join_contest(ctx: &mut JoinContest, now: i64) -> (r: Result<ParticipantJoined, FitFreakError>)
    ensures
        match join_error(*old(ctx), now) {
            Some(e) => r == Err::<ParticipantJoined, FitFreakError>(e) && *final(ctx) == *old(ctx),
            None => {
                &&& r matches Ok(ev) && ev.contest_id@ == old(ctx).contest_key@
                    && ev.participant@ == old(ctx).participant.key@
                &&& *final(ctx) == join_effect(*old(ctx), now)
            },
        },
        now < old(ctx).contest.start_time ==> r == Err::<ParticipantJoined, FitFreakError>(
            FitFreakError::ContestNotStarted,
        ),
        old(ctx).contest.start_time <= now && now >= old(ctx).contest.end_time ==> r == Err::<
            ParticipantJoined,
            FitFreakError,
        >(FitFreakError::ContestEnded),
        r is Ok ==> final(ctx).contest.participant_count == old(ctx).contest.participant_count + 1,
        old(ctx).contest.wf() ==> final(ctx).contest.wf(),
        r is Ok ==> final(ctx).contest_lamports - final(ctx).contest.pool() == old(
            ctx,
        ).contest_lamports - old(ctx).contest.pool(),
{
    if now < ctx.contest.start_time {
        return Err(FitFreakError::ContestNotStarted);
    }
    if now >= ctx.contest.end_time {
        return Err(FitFreakError::ContestEnded);
    }
    if ctx.contest.participant_count >= ctx.contest.max_participants {
        return Err(FitFreakError::ContestFull);
    }
    let contest_found = contest_address(
        &ctx.program_id,
        &ctx.contest.owner,
        ctx.contest.contest_id,
    );
    if !matches_derived(contest_found, &ctx.contest_key) {
        return Err(FitFreakError::AccountMismatch);
    }
    if !ctx.contest.is_active {
        return Err(FitFreakError::ContestClosed);
    }
    let record_found = participant_address(&ctx.program_id, &ctx.contest_key, &ctx.participant.key);
    if !matches_derived(record_found, &ctx.participant_account_key) {
        return Err(FitFreakError::AccountMismatch);
    }
    if ctx.participant_account.is_some() {
        return Err(FitFreakError::AccountAlreadyExists);
    }
    let stake = ctx.contest.stake_amount;
    if ctx.participant.lamports < stake {
        return Err(FitFreakError::InsufficientFunds);
    }
    if ctx.contest_lamports > u64::MAX - stake {
        return Err(FitFreakError::ArithmeticOverflow);
    }
    let bump: u8 = match record_found {
        Some(a) => a.1,
        None => 0,
    };
    ctx.participant.lamports = ctx.participant.lamports - stake;
    ctx.contest_lamports = ctx.contest_lamports + stake;
    ctx.participant_account = Some(
        ParticipantAccount {
            contest: ctx.contest_key,
            participant: ctx.participant.key,
            joined_at: now,
            bump,
        },
    );
    ctx.contest.participant_count = ctx.contest.participant_count + 1;
    proof {
        let n = old(ctx).contest.participant_count as int;
        let st = stake as int;
        assert((n + 1) * st == n * st + st) by (nonlinear_arith);
    }
    Ok(ParticipantJoined { contest_id: ctx.contest_key, participant: ctx.participant.key })
}

// ---------------------------------------------------------------- distribute

/// The accounts of a payout.
pub struct DistributeRewards {
    pub program_id: Key,
    pub contest_key: Key,
    pub contest: Contest,
    /// The balance held by the contest account: its escrow.
    pub contest_lamports: u64,
    pub winner1_account: Wallet,
    pub winner2_account: Wallet,
    pub winner3_account: Wallet,
    /// The administrator's account, which receives the remainder.
    pub owner_account: Wallet,
    /// The identity that signed the request.
    pub owner: Key,
}

/// Whether the five accounts that a payout touches are pairwise distinct.
pub open spec fn payout_accounts_distinct(ctx: DistributeRewards) -> bool {
    let k = seq![
        ctx.contest_key@,
        ctx.winner1_account.key@,
        ctx.winner2_account.key@,
        ctx.winner3_account.key@,
        ctx.owner_account.key@,
    ];
    forall|i: int, j: int| 0 <= i < j < 5 ==> k[i] != k[j]
}

/// Why a payout at time `now` to `winner1`, `winner2`, `winner3` is refused,
/// if it is.
pub open spec fn distribute_error(
    ctx: DistributeRewards,
    now: i64,
    winner1: Key,
    winner2: Key,
    winner3: Key,
) -> Option<FitFreakError> {
    let c = ctx.contest;
    let prizes = prizes_of(c.pool());
    if ctx.owner@ != c.owner@ {
        Some(FitFreakError::Unauthorized)
    } else if !derives(contest_seeds(c.owner@, c.contest_id), ctx.program_id@, ctx.contest_key@)
        || ctx.winner1_account.key@ != winner1@ || ctx.winner2_account.key@ != winner2@
        || ctx.winner3_account.key@ != winner3@ || ctx.owner_account.key@ != c.owner@
        || !payout_accounts_distinct(ctx) {
        Some(FitFreakError::AccountMismatch)
    } else if now <= c.end_time {
        Some(FitFreakError::ContestStillActive)
    } else if c.rewards_distributed {
        Some(FitFreakError::RewardsAlreadyDistributed)
    } else if c.participant_count < c.min_participants {
        Some(FitFreakError::NotEnoughParticipants)
    } else if c.pool() > u64::MAX {
        Some(FitFreakError::ArithmeticOverflow)
    } else if ctx.contest_lamports < c.pool() {
        Some(FitFreakError::InsufficientFunds)
    } else if ctx.winner1_account.lamports + prizes.first > u64::MAX
        || ctx.winner2_account.lamports + prizes.second > u64::MAX
        || ctx.winner3_account.lamports + prizes.third > u64::MAX
        || ctx.owner_account.lamports + prizes.admin_cut > u64::MAX {
        Some(FitFreakError::ArithmeticOverflow)
    } else {
        None
    }
}

/// `w` credited with `amount`.
pub open spec fn credited(w: Wallet, amount: u64) -> Wallet {
    Wallet { lamports: (w.lamports + amount) as u64, ..w }
}

/// The accounts after a successful payout.
pub open spec fn distribute_effect(ctx: DistributeRewards) -> DistributeRewards {
    let prizes = prizes_of(ctx.contest.pool());
    DistributeRewards {
        contest: Contest { rewards_distributed: true, ..ctx.contest },
        contest_lamports: (ctx.contest_lamports - ctx.contest.pool()) as u64,
        winner1_account: credited(ctx.winner1_account, prizes.first),
        winner2_account: credited(ctx.winner2_account, prizes.second),
        winner3_account: credited(ctx.winner3_account, prizes.third),
        owner_account: credited(ctx.owner_account, prizes.admin_cut),
        ..ctx
    }
}

fn distinct_keys(k: &Vec<Key>) -> (r: bool)
    ensures
        r == (forall|i: int, j: int| 0 <= i < j < k@.len() ==> k@[i]@ != k@[j]@),
{
    let n = k.len();
    let mut i: usize = 0;
    while i < n
        invariant
            n == k@.len(),
            i <= n,
            forall|a: int, b: int| 0 <= a < b < n && a < i ==> k@[a]@ != k@[b]@,
        decreases n - i,
    {
        let mut j: usize = i + 1;
        while j < n
            invariant
                n == k@.len(),
                i < n,
                i + 1 <= j <= n,
                forall|a: int, b: int| 0 <= a < b < n && a < i ==> k@[a]@ != k@[b]@,
                forall|b: int| i < b < j ==> k@[i as int]@ != k@[b]@,
            decreases n - j,
        {
            if k[i] == k[j] {
                return false;
            }
            j = j + 1;
        }
        i = i + 1;
    }
    true
}

/// Pays the contest's pool out once the window has elapsed: 40%, 30% and
/// 20% to the three winners, the rest to the authority, and marks the
/// contest as paid. Only the contest's authority may ask for it.
pub fn distribute_rewards(
    ctx: &mut DistributeRewards,
    now: i64,
    winner1: Key,
    winner2: Key,
    winner3: Key,
) -> (r: Result<RewardsDistributed, FitFreakError>)
    ensures
        match distribute_error(*old(ctx), now, winner1, winner2, winner3) {
            Some(e) => r == Err::<RewardsDistributed, FitFreakError>(e) && *final(ctx) == *old(
                ctx,
            ),
            None => {
                &&& r matches Ok(ev) && ev.contest_id@ == old(ctx).contest_key@
                &&& *final(ctx) == distribute_effect(*old(ctx))
            },
        },
        old(ctx).owner@ != old(ctx).contest.owner@ ==> r == Err::<
            RewardsDistributed,
            FitFreakError,
        >(FitFreakError::Unauthorized) && *final(ctx) == *old(ctx),
        r is Ok ==> final(ctx).contest_lamports == old(ctx).contest_lamports
            - old(ctx).contest.pool(),
        old(ctx).contest.wf() ==> final(ctx).contest.wf(),
{
    if ctx.owner != ctx.contest.owner {
        return Err(FitFreakError::Unauthorized);
    }
    let contest_found = contest_address(
        &ctx.program_id,
        &ctx.contest.owner,
        ctx.contest.contest_id,
    );
    let keys: Vec<Key> = vec![
        ctx.contest_key,
        ctx.winner1_account.key,
        ctx.winner2_account.key,
        ctx.winner3_account.key,
        ctx.owner_account.key,
    ];
    let distinct = distinct_keys(&keys);
    proof {
        let k = seq![
            ctx.contest_key@,
            ctx.winner1_account.key@,
            ctx.winner2_account.key@,
            ctx.winner3_account.key@,
            ctx.owner_account.key@,
        ];
        assert(forall|i: int| 0 <= i < 5 ==> keys@[i]@ == #[trigger] k[i]);
    }
    if !matches_derived(contest_found, &ctx.contest_key) || ctx.winner1_account.key != winner1
        || ctx.winner2_account.key != winner2 || ctx.winner3_account.key != winner3
        || ctx.owner_account.key != ctx.contest.owner || !distinct {
        return Err(FitFreakError::AccountMismatch);
    }
    if now <= ctx.contest.end_time {
        return Err(FitFreakError::ContestStillActive);
    }
    if ctx.contest.rewards_distributed {
        return Err(FitFreakError::RewardsAlreadyDistributed);
    }
    if ctx.contest.participant_count < ctx.contest.min_participants {
        return Err(FitFreakError::NotEnoughParticipants);
    }
    let count: u128 = ctx.contest.participant_count as u128;
    let stake: u128 = ctx.contest.stake_amount as u128;
    assert(count * stake <= 255 * 0xffff_ffff_ffff_ffff) by (nonlinear_arith)
        requires
            count <= 255,
            stake <= 0xffff_ffff_ffff_ffff,
    ;
    let wide_pool: u128 = count * stake;
    if wide_pool > u64::MAX as u128 {
        return Err(FitFreakError::ArithmeticOverflow);
    }
    let total_pool = wide_pool as u64;
    if ctx.contest_lamports < total_pool {
        return Err(FitFreakError::InsufficientFunds);
    }
    let prizes: Prizes = split_pool(total_pool);
    if ctx.winner1_account.lamports > u64::MAX - prizes.first || ctx.winner2_account.lamports
        > u64::MAX - prizes.second || ctx.winner3_account.lamports > u64::MAX - prizes.third
        || ctx.owner_account.lamports > u64::MAX - prizes.admin_cut {
        return Err(FitFreakError::ArithmeticOverflow);
    }
    ctx.contest_lamports = ctx.contest_lamports - prizes.first;
    ctx.winner1_account.lamports = ctx.winner1_account.lamports + prizes.first;
    ctx.contest_lamports = ctx.contest_lamports - prizes.second;
    ctx.winner2_account.lamports = ctx.winner2_account.lamports + prizes.second;
    ctx.contest_lamports = ctx.contest_lamports - prizes.third;
    ctx.winner3_account.lamports = ctx.winner3_account.lamports + prizes.third;
    ctx.contest_lamports = ctx.contest_lamports - prizes.admin_cut;
    ctx.owner_account.lamports = ctx.owner_account.lamports + prizes.admin_cut;
    ctx.contest.rewards_distributed = true;
    Ok(RewardsDistributed { contest_id: ctx.contest_key })
}

// ---------------------------------------------------------------- query and close

/// The account of a query.
pub struct GetContestInfo {
    pub contest: Contest,
}

/// A snapshot of the contest's public fields; never fails and changes nothing.
pub fn get_contest_info(ctx: &GetContestInfo) -> (r: Result<ContestInfo, FitFreakError>)
    ensures
        r matches Ok(info) && {
            let c = ctx.contest;
            &&& info.owner == c.owner
            &&& info.contest_id == c.contest_id
            &&& info.name@ == c.name@
            &&& info.stake_amount == c.stake_amount
            &&& info.start_time == c.start_time
            &&& info.end_time == c.end_time
            &&& info.max_participants == c.max_participants
            &&& info.min_participants == c.min_participants
            &&& info.participant_count == c.participant_count
            &&& info.rewards_distributed == c.rewards_distributed
            &&& info.is_active == c.is_active
        },
{
    let c = &ctx.contest;
    Ok(
        ContestInfo {
            owner: c.owner,
            contest_id: c.contest_id,
            name: c.name.clone(),
            stake_amount: c.stake_amount,
            start_time: c.start_time,
            end_time: c.end_time,
            max_participants: c.max_participants,
            min_participants: c.min_participants,
            participant_count: c.participant_count,
            rewards_distributed: c.rewards_distributed,
            is_active: c.is_active,
        },
    )
}

/// The accounts of a closing.
pub struct CloseContest {
    pub contest: Contest,
    /// The identity that signed the request.
    pub owner: Key,
}

/// Deactivates the contest, which then takes no more joins. Only the
/// contest's authority may ask for it; no balance moves.
pub fn close_contest(ctx: &mut CloseContest) -> (r: Result<(), FitFreakError>)
    ensures
        old(ctx).owner@ != old(ctx).contest.owner@ ==> r == Err::<(), FitFreakError>(
            FitFreakError::Unauthorized,
        ) && *final(ctx) == *old(ctx),
        old(ctx).owner@ == old(ctx).contest.owner@ ==> r is Ok && *final(ctx) == (CloseContest {
            contest: Contest { is_active: false, ..old(ctx).contest },
            ..*old(ctx)
        }),
        old(ctx).contest.wf() ==> final(ctx).contest.wf(),
{
    if ctx.owner != ctx.contest.owner {
        return Err(FitFreakError::Unauthorized);
    }
    ctx.contest.is_active = false;
    Ok(())
}

// ---------------------------------------------------------------- laws

/// The contest after `n` joins.
pub open spec fn joined_times(c: Contest, n: nat) -> Contest
    decreases n,
{
    if n == 0 {
        c
    } else {
        joined(joined_times(c, (n - 1) as nat))
    }
}

/// Joins count exactly: after `n` successful joins of a contest that started
/// empty, it has `n` participants and nothing else about it has changed; and
/// once `n` is the capacity, the next join inside the window is refused as
/// full.
pub proof fn lemma_joins_fill_contest(c: Contest, n: nat, next: JoinContest, now: i64)
    requires
        c.participant_count == 0,
        n <= c.max_participants,
    ensures
        joined_times(c, n) == (Contest { participant_count: n as u8, ..c }),
        n == c.max_participants && next.contest == joined_times(c, n) && c.start_time <= now
            < c.end_time ==> join_error(next, now) == Some(FitFreakError::ContestFull),
    decreases n,
{
    if n > 0 {
        lemma_joins_fill_contest(c, (n - 1) as nat, next, now);
    }
}

/// A payout happens once: after a successful payout, asking again with the
/// same accounts and winners at the same or a later time is refused as
/// already distributed, so nothing is paid twice.
pub proof fn lemma_distribute_once(
    ctx: DistributeRewards,
    now1: i64,
    now2: i64,
    winner1: Key,
    winner2: Key,
    winner3: Key,
)
    requires
        distribute_error(ctx, now1, winner1, winner2, winner3) is None,
        now1 <= now2,
    ensures
        distribute_error(distribute_effect(ctx), now2, winner1, winner2, winner3) == Some(
            FitFreakError::RewardsAlreadyDistributed,
        ),
{
}

/// A successful payout neither creates nor destroys value: the three prizes
/// and the administrator's cut add up to the pool `participant_count *
/// stake_amount`, the cut is the pool less the three rounded-down prizes, and
/// the escrow loses exactly what the four accounts gain.
pub proof fn lemma_distribution_conserves(
    ctx: DistributeRewards,
    now: i64,
    winner1: Key,
    winner2: Key,
    winner3: Key,
)
    requires
        distribute_error(ctx, now, winner1, winner2, winner3) is None,
    ensures
        ({
            let pool = ctx.contest.participant_count as int * ctx.contest.stake_amount as int;
            let p = prizes_of(pool);
            let after = distribute_effect(ctx);
            &&& p.first + p.second + p.third + p.admin_cut == pool
            &&& p.admin_cut == pool - percent_of(pool, 40) - percent_of(pool, 30) - percent_of(
                pool,
                20,
            )
            &&& after.contest_lamports + after.winner1_account.lamports
                + after.winner2_account.lamports + after.winner3_account.lamports
                + after.owner_account.lamports == ctx.contest_lamports
                + ctx.winner1_account.lamports + ctx.winner2_account.lamports
                + ctx.winner3_account.lamports + ctx.owner_account.lamports
        }),
{
    let pool = ctx.contest.participant_count as int * ctx.contest.stake_amount as int;
    assert(0 <= pool) by (nonlinear_arith)
        requires
            pool == ctx.contest.participant_count as int * ctx.contest.stake_amount as int,
    ;
    lemma_split_conserves(pool);
}

} // verus!
