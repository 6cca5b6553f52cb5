//! Bookkeeping core of a staking fitness contest: contest creation,
//! joining with a fixed stake, and a one-time split of the pooled stake
//! between three winners and the contest authority.

pub mod address;
pub mod key;
pub mod program;
pub mod rewards;
pub mod state;

pub use address::{contest_address, contest_counter_address, le_bytes, participant_address};
pub use key::Key;
pub use program::{
    close_contest, create_contest, distribute_rewards, get_contest_info, join_contest,
    CloseContest, CreateContest, DistributeRewards, GetContestInfo, JoinContest,
};
pub use rewards::{split_pool, Prizes};
pub use state::{
    Contest, ContestCounter, ContestCreated, ContestInfo, FitFreakError, ParticipantAccount,
    ParticipantJoined, RewardsDistributed, Wallet,
};
