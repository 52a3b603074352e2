//! What holds of the ledger whatever is called on it.

use vstd::prelude::*;
use vstd::set_lib::lemma_len_subset;
use crate::model::{
    apply, before_window, cancel_error, create_error, credit, credit_error, delegate_error,
    delegate_of, error_of, in_window, is_chain, linked, name_error, resolve, run, vote_error, walk,
    Call, DelegateWalk, PalletView,
};
use crate::types::{AccountId, BlockNumber, Error, Voter};

verus! {

/// A call keeps the ledger's invariant.
pub proof fn law_apply_keeps_wf(s: PalletView, call: Call, now: BlockNumber)
    requires
        s.wf(),
    ensures
        apply(s, call, now).wf(),
{
}

/// A successful creation returns the counter plus one and advances the
/// counter to it; no call ever lowers the counter.
pub proof fn law_counter_advances(s: PalletView, call: Call, now: BlockNumber)
    ensures
        apply(s, call, now).counter() >= s.counter(),
        call is Create && error_of(s, call, now) is None ==> apply(s, call, now).counter()
            == s.counter() + 1,
        !(call is Create) ==> apply(s, call, now).counter() == s.counter(),
{
}

/// No sequence of calls lowers the counter.
pub proof fn law_counter_never_decreases(s: PalletView, calls: Seq<(Call, BlockNumber)>)
    ensures
        run(s, calls).counter() >= s.counter(),
    decreases calls.len(),
{
    if calls.len() > 0 {
        law_counter_never_decreases(s, calls.drop_last());
        law_counter_advances(run(s, calls.drop_last()), calls.last().0, calls.last().1);
    }
}

/// The id that a successful creation on `s` returns.
pub open spec fn issued_id(s: PalletView) -> int {
    s.counter() + 1
}

/// Proposal ids are never handed out twice: a creation that succeeds after
/// an earlier successful creation and any calls in between returns a
/// strictly greater id.
pub proof fn law_ids_never_repeat(
    s: PalletView,
    first: Call,
    first_now: BlockNumber,
    between: Seq<(Call, BlockNumber)>,
    second: Call,
    second_now: BlockNumber,
)
    requires
        first is Create,
        second is Create,
        error_of(s, first, first_now) is None,
        error_of(run(apply(s, first, first_now), between), second, second_now) is None,
    ensures
        issued_id(run(apply(s, first, first_now), between)) > issued_id(s),
{
    law_counter_advances(s, first, first_now);
    law_counter_never_decreases(apply(s, first, first_now), between);
}

/// While a proposal stays stored, no call lowers its vote count.
pub proof fn law_vote_count_never_decreases(
    s: PalletView,
    call: Call,
    now: BlockNumber,
    proposal_id: u32,
)
    requires
        s.proposals.contains_key(proposal_id),
        apply(s, call, now).proposals.contains_key(proposal_id),
    ensures
        apply(s, call, now).proposals[proposal_id].vote_count
            >= s.proposals[proposal_id].vote_count,
{
}

/// The weight of the ballot that `call` adds to the proposal stored under
/// `proposal_id`: one for an accepted direct vote on it, the effective
/// delegate's weight for an accepted delegation to an account that voted
/// for it, and nothing otherwise.
pub open spec fn ballot_weight(s: PalletView, call: Call, now: BlockNumber, proposal_id: u32) -> nat {
    if error_of(s, call, now) is Some {
        0
    } else {
        match call {
            Call::Vote { caller, proposal_id: voted_for } => if voted_for == proposal_id {
                1
            } else {
                0
            },
            Call::Delegate { caller, to } => match resolve(s, caller, to) {
                DelegateWalk::Ends(delegate) => if s.voter(delegate).voted && s.voter(
                    delegate,
                ).proposal == proposal_id {
                    s.voter(delegate).weight as nat
                } else {
                    0
                },
                _ => 0,
            },
            _ => 0,
        }
    }
}

/// The weights of all ballots that a sequence of calls adds to a proposal.
pub open spec fn ballots(s: PalletView, calls: Seq<(Call, BlockNumber)>, proposal_id: u32) -> nat
    decreases calls.len(),
{
    if calls.len() == 0 {
        0
    } else {
        ballots(s, calls.drop_last(), proposal_id) + ballot_weight(
            run(s, calls.drop_last()),
            calls.last().0,
            calls.last().1,
            proposal_id,
        )
    }
}

/// The proposal is stored before the calls and after each of them.
pub open spec fn stored_throughout(
    s: PalletView,
    calls: Seq<(Call, BlockNumber)>,
    proposal_id: u32,
) -> bool
    decreases calls.len(),
{
    if calls.len() == 0 {
        s.proposals.contains_key(proposal_id)
    } else {
        stored_throughout(s, calls.drop_last(), proposal_id) && run(
            s,
            calls,
        ).proposals.contains_key(proposal_id)
    }
}

/// A proposal stored throughout a sequence of calls is stored at its end.
proof fn lemma_stored_at_end(s: PalletView, calls: Seq<(Call, BlockNumber)>, proposal_id: u32)
    requires
        stored_throughout(s, calls, proposal_id),
    ensures
        s.proposals.contains_key(proposal_id),
        run(s, calls).proposals.contains_key(proposal_id),
    decreases calls.len(),
{
    if calls.len() > 0 {
        lemma_stored_at_end(s, calls.drop_last(), proposal_id);
    }
}

/// A call raises a stored proposal's vote count by exactly the weight of
/// the ballot it adds to that proposal.
pub proof fn law_vote_count_grows_by_ballot(
    s: PalletView,
    call: Call,
    now: BlockNumber,
    proposal_id: u32,
)
    requires
        s.proposals.contains_key(proposal_id),
        apply(s, call, now).proposals.contains_key(proposal_id),
    ensures
        apply(s, call, now).proposals[proposal_id].vote_count
            == s.proposals[proposal_id].vote_count + ballot_weight(s, call, now, proposal_id),
{
}

/// Over any sequence of calls through which a proposal stays stored, its
/// vote count ends at what it began with plus the weights of the ballots
/// added to it: it never exceeds that sum and never falls.
pub proof fn law_vote_count_is_sum_of_ballots(
    s: PalletView,
    calls: Seq<(Call, BlockNumber)>,
    proposal_id: u32,
)
    requires
        stored_throughout(s, calls, proposal_id),
    ensures
        run(s, calls).proposals[proposal_id].vote_count == s.proposals[proposal_id].vote_count
            + ballots(s, calls, proposal_id),
        run(s, calls).proposals[proposal_id].vote_count >= s.proposals[proposal_id].vote_count,
    decreases calls.len(),
{
    if calls.len() > 0 {
        let before = calls.drop_last();
        lemma_stored_at_end(s, calls, proposal_id);
        law_vote_count_is_sum_of_ballots(s, before, proposal_id);
        lemma_stored_at_end(s, before, proposal_id);
        law_vote_count_grows_by_ballot(run(s, before), calls.last().0, calls.last().1, proposal_id);
    }
}

/// Cancelling a stored proposal succeeds exactly while the current block is
/// before the start of its voting window; from the start on it fails with
/// `ProposalAlreadyinVotingPeriod`.
pub proof fn law_cancel_only_before_window(s: PalletView, proposal_id: u32, now: BlockNumber)
    requires
        proposal_id > 0,
        s.proposals.contains_key(proposal_id),
    ensures
        cancel_error(s, proposal_id, now) is None <==> before_window(s.proposals[proposal_id], now),
        !before_window(s.proposals[proposal_id], now) ==> cancel_error(s, proposal_id, now) == Some(
            Error::ProposalAlreadyinVotingPeriod,
        ),
        s.proposals[proposal_id].vote_start_timestamp matches Some(start) ==> (cancel_error(
            s,
            proposal_id,
            now,
        ) is None <==> now < start),
{
}

/// A vote for a non-zero id, on a proposal whose count is not at its
/// maximum, succeeds exactly when the proposal is stored, the block is in
/// its window, the caller is not its proposer and has no voter record.
pub proof fn law_vote_succeeds_iff(
    s: PalletView,
    caller: AccountId,
    proposal_id: u32,
    now: BlockNumber,
)
    requires
        proposal_id > 0,
        s.proposals.contains_key(proposal_id) ==> s.proposals[proposal_id].vote_count < u32::MAX,
    ensures
        vote_error(s, caller, proposal_id, now) is None <==> {
            &&& s.proposals.contains_key(proposal_id)
            &&& in_window(s.proposals[proposal_id], now)
            &&& caller != s.proposals[proposal_id].proposer
            &&& !s.voters.contains_key(caller)
        },
        s.voters.contains_key(caller) ==> vote_error(s, caller, proposal_id, now) == Some(
            Error::CantVoteTwice,
        ),
{
}

/// Arithmetic at `u32::MAX` is refused, never wrapped: a creation at a full
/// counter, a vote on a full vote count, a delegation to an account of full
/// weight, and a delegation whose credit would overflow the vote count all
/// fail with `ArithmeticOverflow` where nothing else is wrong.
pub proof fn law_overflow_is_refused(
    s: PalletView,
    caller: AccountId,
    other: AccountId,
    name: Seq<u8>,
    start: BlockNumber,
    proposal_id: u32,
    now: BlockNumber,
)
    ensures
        s.counter() == u32::MAX && name_error(s.config, name) is None && start > now
            ==> create_error(s, name, start, now) == Some(Error::ArithmeticOverflow),
        proposal_id > 0 && !s.voters.contains_key(caller) && s.proposals.contains_key(proposal_id)
            && in_window(s.proposals[proposal_id], now) && caller
            != s.proposals[proposal_id].proposer && s.proposals[proposal_id].vote_count
            == u32::MAX ==> vote_error(s, caller, proposal_id, now) == Some(
            Error::ArithmeticOverflow,
        ),
        !s.voter(caller).voted && !s.voter(other).voted && s.voter(other).weight == u32::MAX
            ==> credit_error(s, caller, other, now) == Some(Error::ArithmeticOverflow),
        !s.voter(caller).voted && s.voter(other).voted && s.proposals.contains_key(
            s.voter(other).proposal,
        ) && in_window(s.proposals[s.voter(other).proposal], now)
            && s.proposals[s.voter(other).proposal].vote_count + s.voter(other).weight > u32::MAX
            ==> credit_error(s, caller, other, now) == Some(Error::ArithmeticOverflow),
        error_of(s, Call::Create { caller, name, start, end: start }, now) is None ==> s.counter()
            < u32::MAX,
{
}

/// Every stored proposal has an id between one and the counter.
pub open spec fn ids_issued(s: PalletView) -> bool {
    forall|id: u32| #[trigger] s.proposals.contains_key(id) ==> 0 < id <= s.counter()
}

/// On a ledger whose proposals all came from creations, the slot of the
/// next id is free: calls keep that property, and a creation never fails
/// with `ProposalIdStorageMustBeEmpty`.
pub proof fn law_next_slot_is_free(s: PalletView, call: Call, now: BlockNumber)
    requires
        ids_issued(s),
    ensures
        ids_issued(apply(s, call, now)),
        error_of(s, call, now) != Some(Error::ProposalIdStorageMustBeEmpty),
{
}

/// The chain without the stretch between two places that hold one account.
pub open spec fn cut(chain: Seq<AccountId>, lo: int, hi: int) -> Seq<AccountId> {
    chain.subrange(0, lo) + chain.subrange(hi, chain.len() as int)
}

/// Cutting the stretch between two places that hold one account out of a
/// chain leaves a shorter chain with the same head and the same end.
proof fn lemma_cut_is_chain(
    voters: Map<AccountId, Voter>,
    chain: Seq<AccountId>,
    lo: int,
    hi: int,
)
    requires
        is_chain(voters, chain),
        0 <= lo < hi < chain.len(),
        chain[lo] == chain[hi],
    ensures
        is_chain(voters, cut(chain, lo, hi)),
        cut(chain, lo, hi).len() == chain.len() - (hi - lo),
        cut(chain, lo, hi)[0] == chain[0],
        cut(chain, lo, hi).last() == chain.last(),
        forall|m: int|
            0 <= m < cut(chain, lo, hi).len() ==> #[trigger] cut(chain, lo, hi)[m] == chain[if m
                < lo {
                m
            } else {
                m - lo + hi
            }],
{
    let shorter = cut(chain, lo, hi);
    assert forall|m: int| 0 <= m < shorter.len() - 1 implies #[trigger] linked(
        voters,
        shorter,
        m,
    ) by {
        if m < lo - 1 {
            assert(linked(voters, chain, m));
        } else if m == lo - 1 {
            assert(linked(voters, chain, m));
            assert(shorter[m + 1] == chain[hi]);
        } else {
            assert(linked(voters, chain, m - lo + hi));
        }
    }
}

/// The accounts of a chain before its last all have a stored record, so
/// where no two of them are the same there are no more of them than
/// stored records.
proof fn lemma_chain_fits(voters: Map<AccountId, Voter>, chain: Seq<AccountId>)
    requires
        voters.dom().finite(),
        is_chain(voters, chain),
        chain.len() >= 1,
        chain.drop_last().no_duplicates(),
    ensures
        chain.len() - 1 <= voters.len(),
{
    let body = chain.drop_last();
    assert forall|a: AccountId| body.to_set().contains(a) implies voters.dom().contains(a) by {
        let i = choose|i: int| 0 <= i < body.len() && body[i] == a;
        assert(linked(voters, chain, i));
    }
    body.unique_seq_to_set();
    lemma_len_subset(body.to_set(), voters.dom());
}

/// Two places before the last of a chain that hold one account, where
/// there are such.
proof fn lemma_repeat(chain: Seq<AccountId>) -> (r: (int, int))
    requires
        chain.len() >= 1,
        !chain.drop_last().no_duplicates(),
    ensures
        0 <= r.0 < r.1 < chain.len() - 1,
        chain[r.0] == chain[r.1],
{
    let body = chain.drop_last();
    let (i, j) = choose|i: int, j: int|
        0 <= i < body.len() && 0 <= j < body.len() && i != j && body[i] == body[j];
    assert(chain[i] == body[i] && chain[j] == body[j]);
    if i < j {
        (i, j)
    } else {
        (j, i)
    }
}

/// Walking along a chain that ends in the caller finds the caller, given
/// one hop for each account of the chain after `chain[i]` but the last.
proof fn lemma_walk_along(
    voters: Map<AccountId, Voter>,
    caller: AccountId,
    chain: Seq<AccountId>,
    i: int,
    hops: nat,
)
    requires
        is_chain(voters, chain),
        0 <= i < chain.len() - 1,
        chain.last() == caller,
        hops + i + 2 >= chain.len(),
    ensures
        walk(voters, caller, chain[i], hops) == DelegateWalk::ReturnsToCaller,
    decreases chain.len() - i,
{
    assert(linked(voters, chain, i));
    if chain[i + 1] != caller {
        lemma_walk_along(voters, caller, chain, i + 1, (hops - 1) as nat);
    }
}

/// A walk from the head of any chain of delegates that ends in the caller
/// returns to the caller within one hop per stored voter record.
pub proof fn law_chain_returns_to_caller(
    voters: Map<AccountId, Voter>,
    caller: AccountId,
    chain: Seq<AccountId>,
)
    requires
        voters.dom().finite(),
        is_chain(voters, chain),
        chain.len() >= 2,
        chain.last() == caller,
    ensures
        walk(voters, caller, chain[0], voters.len()) == DelegateWalk::ReturnsToCaller,
    decreases chain.len(),
{
    if chain.drop_last().no_duplicates() {
        lemma_chain_fits(voters, chain);
        lemma_walk_along(voters, caller, chain, 0, voters.len());
    } else {
        let (lo, hi) = lemma_repeat(chain);
        lemma_cut_is_chain(voters, chain, lo, hi);
        law_chain_returns_to_caller(voters, caller, cut(chain, lo, hi));
    }
}

/// A delegation whose target leads back to the caller along stored delegate
/// pointers, over however many accounts, is rejected with
/// `SelfDelegateRouteDetected`. The caller has a voter record and is not
/// the target itself, which are tested first.
pub proof fn law_route_back_to_caller_is_rejected(
    s: PalletView,
    caller: AccountId,
    to: AccountId,
    now: BlockNumber,
    chain: Seq<AccountId>,
)
    requires
        s.wf(),
        caller != to,
        s.voters.contains_key(caller),
        is_chain(s.voters, chain),
        chain.len() >= 2,
        chain[0] == to,
        chain.last() == caller,
    ensures
        delegate_error(s, caller, to, now) == Some(Error::SelfDelegateRouteDetected),
{
    law_chain_returns_to_caller(s.voters, caller, chain);
}

/// Walking along a chain that ends and stays clear of the caller reaches its
/// last account, given one hop for each account of the chain after
/// `chain[i]`.
proof fn lemma_walk_to_end(
    voters: Map<AccountId, Voter>,
    caller: AccountId,
    chain: Seq<AccountId>,
    i: int,
    hops: nat,
)
    requires
        is_chain(voters, chain),
        0 <= i < chain.len(),
        delegate_of(voters, chain.last()) is None,
        forall|m: int| 1 <= m < chain.len() ==> chain[m] != caller,
        hops + i + 1 >= chain.len(),
    ensures
        walk(voters, caller, chain[i], hops) == DelegateWalk::Ends(chain.last()),
    decreases chain.len() - i,
{
    if i < chain.len() - 1 {
        assert(linked(voters, chain, i));
        lemma_walk_to_end(voters, caller, chain, i + 1, (hops - 1) as nat);
    }
}

/// A walk from the head of any chain of delegates that ends at an account
/// without a delegate, and does not pass the caller, reaches that account
/// within one hop per stored voter record.
pub proof fn law_chain_is_followed_to_its_end(
    voters: Map<AccountId, Voter>,
    caller: AccountId,
    chain: Seq<AccountId>,
)
    requires
        voters.dom().finite(),
        is_chain(voters, chain),
        chain.len() >= 1,
        delegate_of(voters, chain.last()) is None,
        forall|m: int| 1 <= m < chain.len() ==> chain[m] != caller,
    ensures
        walk(voters, caller, chain[0], voters.len()) == DelegateWalk::Ends(chain.last()),
    decreases chain.len(),
{
    if chain.drop_last().no_duplicates() {
        lemma_chain_fits(voters, chain);
        lemma_walk_to_end(voters, caller, chain, 0, voters.len());
    } else {
        let (lo, hi) = lemma_repeat(chain);
        lemma_cut_is_chain(voters, chain, lo, hi);
        let shorter = cut(chain, lo, hi);
        assert forall|m: int| 1 <= m < shorter.len() implies shorter[m] != caller by {
            assert(shorter[m] == chain[if m < lo {
                m
            } else {
                m - lo + hi
            }]);
        }
        law_chain_is_followed_to_its_end(voters, caller, shorter);
    }
}

/// A delegation whose target's chain of delegates ends, without passing the
/// caller, credits the account at the end of the chain, however long the
/// chain is: the walk never gives up on a chain that ends.
pub proof fn law_delegation_reaches_end_of_chain(
    s: PalletView,
    caller: AccountId,
    to: AccountId,
    now: BlockNumber,
    chain: Seq<AccountId>,
)
    requires
        s.wf(),
        caller != to,
        s.voters.contains_key(caller),
        is_chain(s.voters, chain),
        chain.len() >= 1,
        chain[0] == to,
        delegate_of(s.voters, chain.last()) is None,
        forall|m: int| 1 <= m < chain.len() ==> chain[m] != caller,
    ensures
        resolve(s, caller, to) == DelegateWalk::Ends(chain.last()),
        delegate_error(s, caller, to, now) == credit_error(s, caller, chain.last(), now),
        delegate_error(s, caller, to, now) is None ==> apply(s, Call::Delegate { caller, to }, now)
            == credit(s, chain.last()),
{
    law_chain_is_followed_to_its_end(s.voters, caller, chain);
}

/// A walk that ends, begun at another account than the caller, ends at
/// another account than the caller.
proof fn lemma_walk_avoids_caller(
    voters: Map<AccountId, Voter>,
    caller: AccountId,
    at: AccountId,
    hops: nat,
)
    requires
        at != caller,
    ensures
        walk(voters, caller, at, hops) != DelegateWalk::Ends(caller),
    decreases hops,
{
    if let Some(next) = delegate_of(voters, at) {
        if next != caller && hops > 0 {
            lemma_walk_avoids_caller(voters, caller, next, (hops - 1) as nat);
        }
    }
}

/// A delegation never writes the caller's own voter record, and writes at
/// most one record at all: that of the effective delegate.
pub proof fn law_delegation_keeps_callers_record(
    s: PalletView,
    caller: AccountId,
    to: AccountId,
    now: BlockNumber,
    other: AccountId,
)
    ensures
        apply(s, Call::Delegate { caller, to }, now).voters.contains_key(caller)
            == s.voters.contains_key(caller),
        apply(s, Call::Delegate { caller, to }, now).voter(caller) == s.voter(caller),
        resolve(s, caller, to) != DelegateWalk::Ends(other) ==> apply(
            s,
            Call::Delegate { caller, to },
            now,
        ).voter(other) == s.voter(other),
{
    if caller != to {
        lemma_walk_avoids_caller(s.voters, caller, to, s.voters.len());
    }
}

} // verus!
