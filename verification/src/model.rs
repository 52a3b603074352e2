//! The ledger as a mathematical value, and the transition that each
//! operation performs on it.

use vstd::prelude::*;
use crate::types::{default_voter, AccountId, BlockNumber, Config, Error, Event, ProposalView, Voter};

verus! {

/// The ledger's state: the configured bounds, the id of the most recently
/// created proposal (absent before the first), the proposals by id, the
/// stored voter records by account, and the events logged so far.
pub struct PalletView {
    pub config: Config,
    pub last_proposal_index: Option<u32>,
    pub proposals: Map<u32, ProposalView>,
    pub voters: Map<AccountId, Voter>,
    pub events: Seq<Event>,
}

/// Where following delegate pointers from an account leads.
#[derive(Clone, Copy, Debug, PartialEq, Eq, Structural)]
pub enum DelegateWalk {
    /// The chain ends at this account, which has no further delegate.
    Ends(AccountId),
    /// The chain reaches the delegating account.
    ReturnsToCaller,
    /// The chain was followed for as many hops as allowed without ending.
    NeverEnds,
}

impl PalletView {
    /// The proposal counter, an absent counter read as zero.
    pub open spec fn counter(self) -> u32 {
        match self.last_proposal_index {
            Some(c) => c,
            None => 0,
        }
    }

    /// The voter record of `who`, the default record where none is stored.
    pub open spec fn voter(self, who: AccountId) -> Voter {
        if self.voters.contains_key(who) {
            self.voters[who]
        } else {
            default_voter()
        }
    }

    /// Every stored proposal's name has a length within the configured bounds.
    pub open spec fn names_bounded(self) -> bool {
        forall|id: u32| #[trigger]
            self.proposals.contains_key(id) ==> name_error(self.config, self.proposals[id].name)
                is None
    }

    /// What holds of every ledger: names are bounded, and the stored voter
    /// records are finitely many.
    pub open spec fn wf(self) -> bool {
        self.names_bounded() && self.voters.dom().finite()
    }
}

/// Why a name is refused under the given bounds, if it is.
pub open spec fn name_error(config: Config, name: Seq<u8>) -> Option<Error> {
    if name.len() > config.max_proposal_length {
        Some(Error::ProposalNameTooLong)
    } else if name.len() < config.min_proposal_length {
        Some(Error::ProposalNameTooShort)
    } else {
        None
    }
}

/// The current block is strictly before the voting window opens. A proposal
/// without a start has no time before its window.
pub open spec fn before_window(p: ProposalView, now: BlockNumber) -> bool {
    match p.vote_start_timestamp {
        Some(start) => now < start,
        None => false,
    }
}

/// The current block lies in the inclusive voting window. An absent start
/// is before every block and an absent end is before every block too, so a
/// proposal without an end is never open.
pub open spec fn in_window(p: ProposalView, now: BlockNumber) -> bool {
    &&& match p.vote_start_timestamp {
        Some(start) => start <= now,
        None => true,
    }
    &&& match p.vote_end_timestamp {
        Some(end) => now <= end,
        None => false,
    }
}

/// The delegate that `at` has stored, if any.
pub open spec fn delegate_of(voters: Map<AccountId, Voter>, at: AccountId) -> Option<AccountId> {
    if voters.contains_key(at) {
        voters[at].delegate
    } else {
        None
    }
}

/// Follows delegate pointers from `at` for at most `hops` steps. The account
/// that a step leads to is compared with `caller` before the step is
/// counted.
pub open spec fn walk(
    voters: Map<AccountId, Voter>,
    caller: AccountId,
    at: AccountId,
    hops: nat,
) -> DelegateWalk
    decreases hops,
{
    match delegate_of(voters, at) {
        None => DelegateWalk::Ends(at),
        Some(next) => if next == caller {
            DelegateWalk::ReturnsToCaller
        } else if hops == 0 {
            DelegateWalk::NeverEnds
        } else {
            walk(voters, caller, next, (hops - 1) as nat)
        },
    }
}

/// The walk that a delegation from `caller` to `to` performs: one step is
/// allowed per stored voter record, which every chain that ends or returns
/// to the caller stays within.
pub open spec fn resolve(s: PalletView, caller: AccountId, to: AccountId) -> DelegateWalk {
    walk(s.voters, caller, to, s.voters.len())
}

/// Why `create_proposal` is rejected, if it is.
pub open spec fn create_error(
    s: PalletView,
    name: Seq<u8>,
    start: BlockNumber,
    now: BlockNumber,
) -> Option<Error> {
    if name_error(s.config, name) is Some {
        name_error(s.config, name)
    } else if start <= now {
        Some(Error::StartTimestampMustBeInTheFuture)
    } else if s.counter() == u32::MAX {
        Some(Error::ArithmeticOverflow)
    } else if s.proposals.contains_key((s.counter() + 1) as u32) {
        Some(Error::ProposalIdStorageMustBeEmpty)
    } else {
        None
    }
}

/// The ledger after `caller` created a proposal.
pub open spec fn created(
    s: PalletView,
    caller: AccountId,
    name: Seq<u8>,
    start: BlockNumber,
    end: BlockNumber,
) -> PalletView {
    let id = (s.counter() + 1) as u32;
    PalletView {
        last_proposal_index: Some(id),
        proposals: s.proposals.insert(
            id,
            ProposalView {
                proposer: caller,
                name: name,
                vote_count: 0,
                vote_start_timestamp: Some(start),
                vote_end_timestamp: Some(end),
            },
        ),
        events: s.events.push(Event::ProposalCreated { proposer: caller, proposal_id: id }),
        ..s
    }
}

/// Why `cancel_proposal` is rejected, if it is.
pub open spec fn cancel_error(s: PalletView, proposal_id: u32, now: BlockNumber) -> Option<Error> {
    if proposal_id == 0 {
        Some(Error::ZeroProposalId)
    } else if !s.proposals.contains_key(proposal_id) {
        Some(Error::NoStorageForProposalId)
    } else if !before_window(s.proposals[proposal_id], now) {
        Some(Error::ProposalAlreadyinVotingPeriod)
    } else {
        None
    }
}

/// The ledger after `caller` cancelled a proposal.
pub open spec fn cancelled(s: PalletView, caller: AccountId, proposal_id: u32) -> PalletView {
    PalletView {
        proposals: s.proposals.remove(proposal_id),
        events: s.events.push(Event::ProposalCancelled { who: caller, proposal_id }),
        ..s
    }
}

/// Why `vote` is rejected, if it is.
pub open spec fn vote_error(
    s: PalletView,
    caller: AccountId,
    proposal_id: u32,
    now: BlockNumber,
) -> Option<Error> {
    if proposal_id == 0 {
        Some(Error::ZeroProposalId)
    } else if s.voters.contains_key(caller) {
        Some(Error::CantVoteTwice)
    } else if !s.proposals.contains_key(proposal_id) {
        Some(Error::NoStorageForProposalId)
    } else if !in_window(s.proposals[proposal_id], now) {
        Some(Error::ProposalNotinVotingPeriod)
    } else if caller == s.proposals[proposal_id].proposer {
        Some(Error::ProposerCannotVote)
    } else if s.proposals[proposal_id].vote_count == u32::MAX {
        Some(Error::ArithmeticOverflow)
    } else {
        None
    }
}

/// The proposal `p` with `weight` more votes.
pub open spec fn credited(p: ProposalView, weight: u32) -> ProposalView {
    ProposalView { vote_count: (p.vote_count + weight) as u32, ..p }
}

/// The ledger after `caller` voted on a proposal.
pub open spec fn voted(s: PalletView, caller: AccountId, proposal_id: u32) -> PalletView {
    PalletView {
        voters: s.voters.insert(
            caller,
            Voter { weight: 1, voted: true, delegate: None, proposal: proposal_id },
        ),
        proposals: s.proposals.insert(proposal_id, credited(s.proposals[proposal_id], 1)),
        events: s.events.push(Event::ProposalVoted { who: caller, proposal_id }),
        ..s
    }
}

/// Why a delegation that resolved to the effective delegate `delegate` is
/// rejected, if it is.
pub open spec fn credit_error(
    s: PalletView,
    caller: AccountId,
    delegate: AccountId,
    now: BlockNumber,
) -> Option<Error> {
    let d = s.voter(delegate);
    if s.voter(caller).voted {
        Some(Error::AlreadyVoted)
    } else if d.voted {
        if !s.proposals.contains_key(d.proposal) {
            None
        } else if !in_window(s.proposals[d.proposal], now) {
            Some(Error::ProposalNotinVotingPeriod)
        } else if s.proposals[d.proposal].vote_count + d.weight > u32::MAX {
            Some(Error::ArithmeticOverflow)
        } else {
            None
        }
    } else if d.weight == u32::MAX {
        Some(Error::ArithmeticOverflow)
    } else {
        None
    }
}

/// The ledger after a delegation to the effective delegate `delegate` was
/// accepted: a delegate that has voted passes its weight on to the proposal
/// it voted for, where that proposal is still stored; one that has not
/// gains one unit of weight.
pub open spec fn credit(s: PalletView, delegate: AccountId) -> PalletView {
    let d = s.voter(delegate);
    if d.voted {
        if s.proposals.contains_key(d.proposal) {
            PalletView {
                proposals: s.proposals.insert(
                    d.proposal,
                    credited(s.proposals[d.proposal], d.weight),
                ),
                ..s
            }
        } else {
            s
        }
    } else {
        PalletView {
            voters: s.voters.insert(delegate, Voter { weight: (d.weight + 1) as u32, ..d }),
            ..s
        }
    }
}

/// Why `delegate_vote` is rejected, if it is.
pub open spec fn delegate_error(
    s: PalletView,
    caller: AccountId,
    to: AccountId,
    now: BlockNumber,
) -> Option<Error> {
    if caller == to {
        Some(Error::CantDelegateToSelf)
    } else if !s.voters.contains_key(caller) {
        Some(Error::NoStorageForVoterDuringDelegation)
    } else {
        match resolve(s, caller, to) {
            DelegateWalk::ReturnsToCaller => Some(Error::SelfDelegateRouteDetected),
            DelegateWalk::NeverEnds => Some(Error::DelegateRouteNeverEnds),
            DelegateWalk::Ends(delegate) => credit_error(s, caller, delegate, now),
        }
    }
}

/// The ledger after `caller` delegated to `to`. Requires that the walk ends.
pub open spec fn delegated(s: PalletView, caller: AccountId, to: AccountId) -> PalletView {
    match resolve(s, caller, to) {
        DelegateWalk::Ends(delegate) => credit(s, delegate),
        _ => s,
    }
}

/// One call of an operation, with its arguments.
pub enum Call {
    Create { caller: AccountId, name: Seq<u8>, start: BlockNumber, end: BlockNumber },
    Cancel { caller: AccountId, proposal_id: u32 },
    Vote { caller: AccountId, proposal_id: u32 },
    Delegate { caller: AccountId, to: AccountId },
}

/// Why `call` is rejected at block `now`, if it is.
pub open spec fn error_of(s: PalletView, call: Call, now: BlockNumber) -> Option<Error> {
    match call {
        Call::Create { caller, name, start, end } => create_error(s, name, start, now),
        Call::Cancel { caller, proposal_id } => cancel_error(s, proposal_id, now),
        Call::Vote { caller, proposal_id } => vote_error(s, caller, proposal_id, now),
        Call::Delegate { caller, to } => delegate_error(s, caller, to, now),
    }
}

/// The ledger after `call` at block `now`: unchanged where the call is
/// rejected.
pub open spec fn apply(s: PalletView, call: Call, now: BlockNumber) -> PalletView {
    if error_of(s, call, now) is Some {
        s
    } else {
        match call {
            Call::Create { caller, name, start, end } => created(s, caller, name, start, end),
            Call::Cancel { caller, proposal_id } => cancelled(s, caller, proposal_id),
            Call::Vote { caller, proposal_id } => voted(s, caller, proposal_id),
            Call::Delegate { caller, to } => delegated(s, caller, to),
        }
    }
}

/// The ledger after a sequence of calls, each with the block it ran at.
pub open spec fn run(s: PalletView, calls: Seq<(Call, BlockNumber)>) -> PalletView
    decreases calls.len(),
{
    if calls.len() == 0 {
        s
    } else {
        apply(run(s, calls.drop_last()), calls.last().0, calls.last().1)
    }
}

/// The account at position `i` of `chain` has the next one as its stored
/// delegate.
pub open spec fn linked(voters: Map<AccountId, Voter>, chain: Seq<AccountId>, i: int) -> bool {
    delegate_of(voters, chain[i]) == Some(chain[i + 1])
}

/// Each account of `chain` but the last has the next one as its stored
/// delegate.
pub open spec fn is_chain(voters: Map<AccountId, Voter>, chain: Seq<AccountId>) -> bool {
    forall|i: int| 0 <= i < chain.len() - 1 ==> #[trigger] linked(voters, chain, i)
}

} // verus!
