//! Records kept by the ledger, the events it logs and the errors it returns.

use vstd::prelude::*;

verus! {

/// Identifier of an account.
pub type AccountId = u64;

/// Block height, the ledger's notion of time.
pub type BlockNumber = u64;

/// Bounds on the byte length of a proposal's name, both inclusive.
#[derive(Clone, Copy, Debug, PartialEq, Eq, Structural)]
pub struct Config {
    pub min_proposal_length: u32,
    pub max_proposal_length: u32,
}

/// A named subject of voting with its voting window and accumulated votes.
#[derive(Clone, Debug, PartialEq, Eq)]
pub struct Proposal {
    pub proposer: AccountId,
    pub name: Vec<u8>,
    pub vote_count: u32,
    pub vote_start_timestamp: Option<BlockNumber>,
    pub vote_end_timestamp: Option<BlockNumber>,
}

/// The mathematical value of a [`Proposal`]: the name is a sequence of bytes.
pub struct ProposalView {
    pub proposer: AccountId,
    pub name: Seq<u8>,
    pub vote_count: u32,
    pub vote_start_timestamp: Option<BlockNumber>,
    pub vote_end_timestamp: Option<BlockNumber>,
}

impl View for Proposal {
    type V = ProposalView;

    open spec fn view(&self) -> ProposalView {
        ProposalView {
            proposer: self.proposer,
            name: self.name@,
            vote_count: self.vote_count,
            vote_start_timestamp: self.vote_start_timestamp,
            vote_end_timestamp: self.vote_end_timestamp,
        }
    }
}

/// Per-account voting state. `proposal` is meaningful only when `voted` is
/// set; `weight` is the number of ballots the account's vote stands for.
#[derive(Clone, Copy, Debug, PartialEq, Eq, Structural)]
pub struct Voter {
    pub weight: u32,
    pub voted: bool,
    pub delegate: Option<AccountId>,
    pub proposal: u32,
}

/// The record that an account without a stored voter record reads as.
pub open spec fn default_voter() -> Voter {
    Voter { weight: 1, voted: false, delegate: None, proposal: 0 }
}

/// The record that an account without a stored voter record reads as.
#[allow(non_snake_case)]
pub fn DefaultVoter() -> (v: Voter)
    ensures
        v == default_voter(),
{
    Voter { weight: 1, voted: false, delegate: None, proposal: 0 }
}

/// What the ledger logs when an operation commits.
#[derive(Clone, Copy, Debug, PartialEq, Eq, Structural)]
pub enum Event {
    /// A proposal was created.
    ProposalCreated { proposer: AccountId, proposal_id: u32 },
    /// A proposal was cancelled before its voting window opened.
    ProposalCancelled { who: AccountId, proposal_id: u32 },
    /// An account voted on a proposal.
    ProposalVoted { who: AccountId, proposal_id: u32 },
    /// An account delegated its vote.
    VoterDelegated { who: AccountId, to: AccountId },
}

/// Why an operation was rejected. A rejected operation changes nothing.
#[derive(Clone, Copy, Debug, PartialEq, Eq, Structural)]
pub enum Error {
    /// The delegating account has already voted.
    AlreadyVoted,
    /// Proposal ids start at one.
    ZeroProposalId,
    /// The voting window must open after the current block.
    StartTimestampMustBeInTheFuture,
    /// The proposal name is neither short enough nor long enough.
    InvalidProposalName,
    /// The proposal name is shorter than the configured minimum.
    ProposalNameTooShort,
    /// The proposal name is longer than the configured maximum.
    ProposalNameTooLong,
    /// The caller has created no proposal.
    NoProposalCreatedByCaller,
    /// The voting window has opened, so the proposal can no longer be cancelled.
    ProposalAlreadyinVotingPeriod,
    /// The current block is outside the proposal's voting window.
    ProposalNotinVotingPeriod,
    /// The slot of the next proposal id is occupied.
    ProposalIdStorageMustBeEmpty,
    /// No proposal is stored under this id.
    NoStorageForProposalId,
    /// A proposer cannot vote on their own proposal.
    ProposerCannotVote,
    /// The account already has a voter record.
    CantVoteTwice,
    /// A counter, weight or vote count would exceed `u32::MAX`.
    ArithmeticOverflow,
    /// An account cannot delegate to itself.
    CantDelegateToSelf,
    /// The delegation chain leads back to the delegating account.
    SelfDelegateRouteDetected,
    /// The delegating account has no voter record.
    NoStorageForVoterDuringDelegation,
    /// The account has voted and can no longer delegate.
    CantDelegateToAnyoneIfAlreadyVoted,
    /// The delegation chain cycles among other accounts and never ends.
    DelegateRouteNeverEnds,
}

} // verus!
