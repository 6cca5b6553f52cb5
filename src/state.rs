use vstd::prelude::*;

use crate::key::Key;

verus! {

/// Why an operation was refused. Every refusal leaves all state unchanged.
#[derive(Clone, Copy, Debug, PartialEq, Eq, Structural)]
pub enum FitFreakError {
    ContestNotStarted,
    ContestEnded,
    ContestFull,
    ContestStillActive,
    RewardsAlreadyDistributed,
    NotEnoughParticipants,
    Unauthorized,
    /// A supplied account is not the one derived from trusted seeds, or the
    /// payout accounts are not pairwise distinct.
    AccountMismatch,
    /// A record already exists at the derived address (double create or join).
    AccountAlreadyExists,
    /// The contest has been closed by its authority.
    ContestClosed,
    /// The window does not end strictly after it starts.
    InvalidSchedule,
    /// A balance is too small for the transfer it must fund.
    InsufficientFunds,
    /// A count or a balance would leave its integer range.
    ArithmeticOverflow,
}

impl FitFreakError {
    /// A human-readable description of the error.
    pub fn message(&self) -> (r: String) {
        match self {
            FitFreakError::ContestNotStarted => String::from_str("Contest has not started yet"),
            FitFreakError::ContestEnded => String::from_str("Contest has ended"),
            FitFreakError::ContestFull => String::from_str("Contest is full"),
            FitFreakError::ContestStillActive => String::from_str("Contest is still active"),
            FitFreakError::RewardsAlreadyDistributed => String::from_str(
                "Rewards have already been distributed",
            ),
            FitFreakError::NotEnoughParticipants => String::from_str("Not enough participants"),
            FitFreakError::Unauthorized => String::from_str("Unauthorized"),
            FitFreakError::AccountMismatch => String::from_str("Account does not match its derived address"),
            FitFreakError::AccountAlreadyExists => String::from_str("Account already exists"),
            FitFreakError::ContestClosed => String::from_str("Contest is closed"),
            FitFreakError::InvalidSchedule => String::from_str("Contest must end after it starts"),
            FitFreakError::InsufficientFunds => String::from_str("Insufficient funds"),
            FitFreakError::ArithmeticOverflow => String::from_str("Arithmetic overflow"),
        }
    }
}

/// One staking round.
#[derive(Clone, Debug)]
pub struct Contest {
    pub owner: Key,
    pub contest_id: u64,
    pub name: String,
    pub stake_amount: u64,
    pub start_time: i64,
    pub end_time: i64,
    pub max_participants: u8,
    pub min_participants: u8,
    pub participant_count: u8,
    pub rewards_distributed: bool,
    pub is_active: bool,
    pub bump: u8,
}

impl Contest {
    /// The invariant every contest record keeps from creation on.
    pub open spec fn wf(&self) -> bool {
        &&& self.participant_count <= self.max_participants
        &&& self.start_time < self.end_time
    }

    /// The value the participants have staked so far.
    pub open spec fn pool(&self) -> int {
        self.participant_count as int * self.stake_amount as int
    }
}

/// Per-owner counter from which contest identifiers are minted.
#[derive(Clone, Copy, Debug, PartialEq, Eq, Structural)]
pub struct ContestCounter {
    pub count: u64,
}

/// The record of one participant's join.
#[derive(Clone, Copy, Debug)]
pub struct ParticipantAccount {
    pub contest: Key,
    pub participant: Key,
    pub joined_at: i64,
    pub bump: u8,
}

/// A read-only snapshot of a contest's public fields.
#[derive(Clone, Debug)]
pub struct ContestInfo {
    pub owner: Key,
    pub contest_id: u64,
    pub name: String,
    pub stake_amount: u64,
    pub start_time: i64,
    pub end_time: i64,
    pub max_participants: u8,
    pub min_participants: u8,
    pub participant_count: u8,
    pub rewards_distributed: bool,
    pub is_active: bool,
}

/// A balance-holding account: who it is and what it holds.
#[derive(Clone, Copy, Debug)]
pub struct Wallet {
    pub key: Key,
    pub lamports: u64,
}

/// Notification that a contest was created at the address `contest_id`.
#[derive(Clone, Debug)]
pub struct ContestCreated {
    pub contest_id: Key,
    pub name: String,
}

/// Notification that `participant` joined the contest at `contest_id`.
#[derive(Clone, Copy, Debug)]
pub struct ParticipantJoined {
    pub contest_id: Key,
    pub participant: Key,
}

/// Notification that the contest at `contest_id` paid out its pool.
#[derive(Clone, Copy, Debug)]
pub struct RewardsDistributed {
    pub contest_id: Key,
}

} // verus!
