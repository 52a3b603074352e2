//! The ledger and its operations.

use std::collections::HashMap;
use vstd::prelude::*;
use crate::model::{
    before_window, cancel_error, cancelled, create_error, created, credit, credit_error, credited,
    delegate_error, delegate_of, delegated, in_window, name_error, resolve, vote_error, voted, walk,
    DelegateWalk, PalletView,
};
use crate::types::{
    AccountId, BlockNumber, Config, DefaultVoter, Error, Event, Proposal, Voter,
};

verus! {

broadcast use vstd::std_specs::hash::group_hash_axioms;

/// The proposal registry and the vote ledger over one store.
pub struct Pallet {
    config: Config,
    last_proposal_index: Option<u32>,
    proposals: HashMap<u32, Proposal>,
    voters: HashMap<AccountId, Voter>,
    events: Vec<Event>,
}

impl View for Pallet {
    type V = PalletView;

    closed spec fn view(&self) -> PalletView {
        PalletView {
            config: self.config,
            last_proposal_index: self.last_proposal_index,
            proposals: self.proposals@.map_values(|p: Proposal| p@),
            voters: self.voters@,
            events: self.events@,
        }
    }
}

/// Why `name` is refused under the bounds of `config`, if it is.
pub fn check_name(config: &Config, name: &Vec<u8>) -> (res: Option<Error>)
    ensures
        res == name_error(*config, name@),
{
    if name.len() > config.max_proposal_length as usize {
        Some(Error::ProposalNameTooLong)
    } else if name.len() < config.min_proposal_length as usize {
        Some(Error::ProposalNameTooShort)
    } else {
        None
    }
}

/// Whether block `now` is strictly before the voting window of `p`.
pub fn is_before_window(p: &Proposal, now: BlockNumber) -> (res: bool)
    ensures
        res == before_window(p@, now),
{
    match p.vote_start_timestamp {
        Some(start) => now < start,
        None => false,
    }
}

/// Whether block `now` lies in the inclusive voting window of `p`.
pub fn is_in_window(p: &Proposal, now: BlockNumber) -> (res: bool)
    ensures
        res == in_window(p@, now),
{
    let started = match p.vote_start_timestamp {
        Some(start) => start <= now,
        None => true,
    };
    let open = match p.vote_end_timestamp {
        Some(end) => now <= end,
        None => false,
    };
    started && open
}

impl Pallet {
    /// The ledger's invariant: every stored proposal's name has a length
    /// within the configured bounds, and the voter records are finitely many.
    pub open spec fn wf(&self) -> bool {
        self@.wf()
    }

    /// An empty ledger under the given bounds.
    pub fn new(config: Config) -> (p: Pallet)
        ensures
            p.wf(),
            p@ == (PalletView {
                config,
                last_proposal_index: None,
                proposals: Map::empty(),
                voters: Map::empty(),
                events: Seq::empty(),
            }),
    {
        let p = Pallet {
            config,
            last_proposal_index: None,
            proposals: HashMap::new(),
            voters: HashMap::new(),
            events: Vec::new(),
        };
        assert(p@.proposals =~= Map::empty());
        p
    }

    /// The configured bounds on proposal names.
    pub fn config(&self) -> (c: Config)
        ensures
            c == self@.config,
    {
        self.config
    }

    /// The id of the most recently created proposal, if any was created.
    pub fn proposal_index(&self) -> (index: Option<u32>)
        ensures
            index == self@.last_proposal_index,
    {
        self.last_proposal_index
    }

    /// The proposal stored under `proposal_id`, if any.
    pub fn proposals(&self, proposal_id: u32) -> (res: Option<&Proposal>)
        ensures
            match res {
                Some(p) => self@.proposals.contains_key(proposal_id) && p@
                    == self@.proposals[proposal_id],
                None => !self@.proposals.contains_key(proposal_id),
            },
    {
        self.proposals.get(&proposal_id)
    }

    /// The voter record of `who`: the stored one, or the default record.
    pub fn voters(&self, who: AccountId) -> (v: Voter)
        ensures
            v == self@.voter(who),
    {
        match self.voters.get(&who) {
            Some(v) => *v,
            None => DefaultVoter(),
        }
    }

    /// Whether a voter record is stored for `who`.
    pub fn has_voter(&self, who: AccountId) -> (res: bool)
        ensures
            res == self@.voters.contains_key(who),
    {
        self.voters.contains_key(&who)
    }

    /// The events logged so far, oldest first.
    pub fn events(&self) -> (log: &Vec<Event>)
        ensures
            log@ == self@.events,
    {
        &self.events
    }

    /// Sets the proposal counter.
    pub fn put_proposal_index(&mut self, index: u32)
        requires
            old(self).wf(),
        ensures
            final(self).wf(),
            final(self)@ == (PalletView { last_proposal_index: Some(index), ..old(self)@ }),
    {
        self.last_proposal_index = Some(index);
    }

    /// Stores `voter` as the record of `who`, replacing any earlier one.
    pub fn insert_voter(&mut self, who: AccountId, voter: Voter)
        requires
            old(self).wf(),
        ensures
            final(self).wf(),
            final(self)@ == (PalletView {
                voters: old(self)@.voters.insert(who, voter),
                ..old(self)@
            }),
    {
        self.voters.insert(who, voter);
    }

    /// Stores `proposal` under `proposal_id`, replacing any earlier one,
    /// unless its name is out of bounds.
    pub fn insert_proposal(&mut self, proposal_id: u32, proposal: Proposal) -> (res: Result<
        (),
        Error,
    >)
        requires
            old(self).wf(),
        ensures
            final(self).wf(),
            match name_error(old(self)@.config, proposal@.name) {
                Some(e) => res == Err::<(), Error>(e) && final(self)@ == old(self)@,
                None => res is Ok && final(self)@ == (PalletView {
                    proposals: old(self)@.proposals.insert(proposal_id, proposal@),
                    ..old(self)@
                }),
            },
    {
        match check_name(&self.config, &proposal.name) {
            Some(e) => Err(e),
            None => {
                self.store_proposal(proposal_id, proposal);
                Ok(())
            },
        }
    }

    fn store_proposal(&mut self, proposal_id: u32, proposal: Proposal)
        requires
            old(self).wf(),
            name_error(old(self)@.config, proposal@.name) is None,
        ensures
            final(self).wf(),
            final(self)@ == (PalletView {
                proposals: old(self)@.proposals.insert(proposal_id, proposal@),
                ..old(self)@
            }),
    {
        self.proposals.insert(proposal_id, proposal);
        assert(self@.proposals =~= old(self)@.proposals.insert(proposal_id, proposal@));
    }

    /// Adds `weight` votes to the proposal stored under `proposal_id`.
    fn credit_proposal(&mut self, proposal_id: u32, weight: u32)
        requires
            old(self).wf(),
            old(self)@.proposals.contains_key(proposal_id),
            old(self)@.proposals[proposal_id].vote_count + weight <= u32::MAX,
        ensures
            final(self).wf(),
            final(self)@ == (PalletView {
                proposals: old(self)@.proposals.insert(
                    proposal_id,
                    credited(old(self)@.proposals[proposal_id], weight),
                ),
                ..old(self)@
            }),
    {
        let taken = self.proposals.remove(&proposal_id);
        if let Some(mut p) = taken {
            p.vote_count = p.vote_count + weight;
            self.proposals.insert(proposal_id, p);
            assert(self@.proposals =~= old(self)@.proposals.insert(
                proposal_id,
                credited(old(self)@.proposals[proposal_id], weight),
            ));
        }
    }

    /// Follows the delegation chain that starts at `to` on behalf of
    /// `caller`, one hop allowed per stored voter record.
    pub fn resolve_delegate(&self, caller: AccountId, to: AccountId) -> (res: DelegateWalk)
        ensures
            res == resolve(self@, caller, to),
    {
        let mut at: AccountId = to;
        let mut hops: usize = self.voters.len();
        loop
            invariant
                walk(self@.voters, caller, at, hops as nat) == resolve(self@, caller, to),
            decreases hops,
        {
            let next: AccountId = match self.voters.get(&at) {
                Some(v) => match v.delegate {
                    Some(next) => next,
                    None => { return DelegateWalk::Ends(at); },
                },
                None => { return DelegateWalk::Ends(at); },
            };
            if next == caller {
                return DelegateWalk::ReturnsToCaller;
            }
            if hops == 0 {
                return DelegateWalk::NeverEnds;
            }
            at = next;
            hops = hops - 1;
        }
    }

    /// Registers a proposal named `name` by `caller`, open for voting from
    /// block `start` to block `end`, and returns its id: one more than the
    /// counter, which advances to it. `now` is the current block.
    pub fn create_proposal(
        &mut self,
        caller: AccountId,
        name: Vec<u8>,
        start: BlockNumber,
        end: BlockNumber,
        now: BlockNumber,
    ) -> (res: Result<u32, Error>)
        requires
            old(self).wf(),
        ensures
            final(self).wf(),
            match create_error(old(self)@, name@, start, now) {
                Some(e) => res == Err::<u32, Error>(e) && final(self)@ == old(self)@,
                None => res == Ok::<u32, Error>((old(self)@.counter() + 1) as u32) && final(self)@
                    == created(old(self)@, caller, name@, start, end),
            },
    {
        if let Some(e) = check_name(&self.config, &name) {
            return Err(e);
        }
        if start <= now {
            return Err(Error::StartTimestampMustBeInTheFuture);
        }
        let last: u32 = match self.last_proposal_index {
            Some(c) => c,
            None => 0,
        };
        if last == u32::MAX {
            return Err(Error::ArithmeticOverflow);
        }
        let id: u32 = last + 1;
        if self.proposals.contains_key(&id) {
            return Err(Error::ProposalIdStorageMustBeEmpty);
        }
        let proposal = Proposal {
            proposer: caller,
            name,
            vote_count: 0,
            vote_start_timestamp: Some(start),
            vote_end_timestamp: Some(end),
        };
        self.store_proposal(id, proposal);
        self.last_proposal_index = Some(id);
        self.events.push(Event::ProposalCreated { proposer: caller, proposal_id: id });
        Ok(id)
    }

    /// Removes the proposal stored under `proposal_id` if its voting window
    /// has not opened at block `now`. Any caller may cancel.
    pub fn cancel_proposal(&mut self, caller: AccountId, proposal_id: u32, now: BlockNumber) -> (res:
        Result<(), Error>)
        requires
            old(self).wf(),
        ensures
            final(self).wf(),
            match cancel_error(old(self)@, proposal_id, now) {
                Some(e) => res == Err::<(), Error>(e) && final(self)@ == old(self)@,
                None => res is Ok && final(self)@ == cancelled(old(self)@, caller, proposal_id),
            },
    {
        if proposal_id == 0 {
            return Err(Error::ZeroProposalId);
        }
        match self.proposals.get(&proposal_id) {
            None => { return Err(Error::NoStorageForProposalId); },
            Some(p) => {
                if !is_before_window(p, now) {
                    return Err(Error::ProposalAlreadyinVotingPeriod);
                }
            },
        }
        self.proposals.remove(&proposal_id);
        self.events.push(Event::ProposalCancelled { who: caller, proposal_id });
        assert(self@.proposals =~= old(self)@.proposals.remove(proposal_id));
        Ok(())
    }

    /// Casts the one ballot of `caller` for the proposal stored under
    /// `proposal_id` at block `now`.
    pub fn vote(&mut self, caller: AccountId, proposal_id: u32, now: BlockNumber) -> (res: Result<
        (),
        Error,
    >)
        requires
            old(self).wf(),
        ensures
            final(self).wf(),
            match vote_error(old(self)@, caller, proposal_id, now) {
                Some(e) => res == Err::<(), Error>(e) && final(self)@ == old(self)@,
                None => res is Ok && final(self)@ == voted(old(self)@, caller, proposal_id),
            },
    {
        if proposal_id == 0 {
            return Err(Error::ZeroProposalId);
        }
        if self.voters.contains_key(&caller) {
            return Err(Error::CantVoteTwice);
        }
        match self.proposals.get(&proposal_id) {
            None => { return Err(Error::NoStorageForProposalId); },
            Some(p) => {
                if !is_in_window(p, now) {
                    return Err(Error::ProposalNotinVotingPeriod);
                }
                if caller == p.proposer {
                    return Err(Error::ProposerCannotVote);
                }
                if p.vote_count == u32::MAX {
                    return Err(Error::ArithmeticOverflow);
                }
            },
        }
        self.voters.insert(
            caller,
            Voter { weight: 1, voted: true, delegate: None, proposal: proposal_id },
        );
        self.credit_proposal(proposal_id, 1);
        self.events.push(Event::ProposalVoted { who: caller, proposal_id });
        Ok(())
    }

    /// Passes the ballot of `caller` on to `delegate`, the account at which
    /// the delegation chain ended.
    pub fn credit_delegate(&mut self, caller: AccountId, delegate: AccountId, now: BlockNumber) -> (res:
        Result<(), Error>)
        requires
            old(self).wf(),
        ensures
            final(self).wf(),
            match credit_error(old(self)@, caller, delegate, now) {
                Some(e) => res == Err::<(), Error>(e) && final(self)@ == old(self)@,
                None => res is Ok && final(self)@ == credit(old(self)@, delegate),
            },
    {
        if self.voters(caller).voted {
            return Err(Error::AlreadyVoted);
        }
        let d = self.voters(delegate);
        if d.voted {
            match self.proposals.get(&d.proposal) {
                None => { return Ok(()); },
                Some(p) => {
                    if !is_in_window(p, now) {
                        return Err(Error::ProposalNotinVotingPeriod);
                    }
                    if p.vote_count > u32::MAX - d.weight {
                        return Err(Error::ArithmeticOverflow);
                    }
                },
            }
            self.credit_proposal(d.proposal, d.weight);
        } else {
            if d.weight == u32::MAX {
                return Err(Error::ArithmeticOverflow);
            }
            self.voters.insert(delegate, Voter { weight: d.weight + 1, ..d });
        }
        Ok(())
    }

    /// Delegates the ballot of `caller` to `to` at block `now`: the chain of
    /// delegates is followed from `to` to the account that has none, and
    /// that account's weight, or the proposal it voted for, is credited.
    pub fn delegate_vote(&mut self, caller: AccountId, to: AccountId, now: BlockNumber) -> (res:
        Result<(), Error>)
        requires
            old(self).wf(),
        ensures
            final(self).wf(),
            match delegate_error(old(self)@, caller, to, now) {
                Some(e) => res == Err::<(), Error>(e) && final(self)@ == old(self)@,
                None => res is Ok && final(self)@ == delegated(old(self)@, caller, to),
            },
    {
        if caller == to {
            return Err(Error::CantDelegateToSelf);
        }
        if !self.voters.contains_key(&caller) {
            return Err(Error::NoStorageForVoterDuringDelegation);
        }
        match self.resolve_delegate(caller, to) {
            DelegateWalk::ReturnsToCaller => Err(Error::SelfDelegateRouteDetected),
            DelegateWalk::NeverEnds => Err(Error::DelegateRouteNeverEnds),
            DelegateWalk::Ends(delegate) => self.credit_delegate(caller, delegate, now),
        }
    }
}

} // verus!
