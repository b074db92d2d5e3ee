//! What holds of every ledger and every sequence of operations on it.

use vstd::prelude::*;
use crate::address::{derived, proposal_seeds, vote_seeds};
use crate::error::ErrorCode;
use crate::instructions::init_proposal::{proposal_counted, proposal_opened};
use crate::ledger::{
    after_cast_vote, after_close_proposal, after_open_governance, after_open_proposal, committed,
    counters_have_room, LedgerView,
};
use crate::state::{GovernanceView, RecordView};
use crate::token::TokenAccountView;

verus! {

/// One call of one of the four operations, with its arguments.
pub enum Operation {
    OpenGovernance { creator: Seq<u8>, name: Seq<char> },
    OpenProposal { creator: Seq<u8>, governance: Seq<u8>, metadata: Seq<char> },
    CastVote { voter: Seq<u8>, proposal: Seq<u8>, vote_type: u8, account: TokenAccountView },
    CloseProposal { caller: Seq<u8>, proposal: Seq<u8> },
}

/// The ledger after the operation, or the error that rejects it.
pub open spec fn after(ledger: LedgerView, operation: Operation) -> Result<LedgerView, ErrorCode> {
    match operation {
        Operation::OpenGovernance { creator, name } => after_open_governance(ledger, creator, name),
        Operation::OpenProposal { creator, governance, metadata } => after_open_proposal(
            ledger,
            creator,
            governance,
            metadata,
        ),
        Operation::CastVote { voter, proposal, vote_type, account } => after_cast_vote(
            ledger,
            voter,
            proposal,
            vote_type,
            account,
        ),
        Operation::CloseProposal { caller, proposal } => after_close_proposal(
            ledger,
            caller,
            proposal,
        ),
    }
}

/// The ledger after the operations that succeed among the given ones, applied
/// in order: a rejected operation leaves the ledger as it was.
pub open spec fn after_all(ledger: LedgerView, operations: Seq<Operation>) -> LedgerView
    decreases operations.len(),
{
    if operations.len() == 0 {
        ledger
    } else {
        let so_far = after_all(ledger, operations.drop_last());
        match after(so_far, operations.last()) {
            Ok(next) => next,
            Err(_) => so_far,
        }
    }
}

/// A record as it may be found later than `before`. A governance keeps its
/// name, authority and bump seed, and its counter never falls. A proposal keeps
/// its metadata and authority, its tallies never fall, and once closed it stays
/// exactly as it is. A vote never changes. No record changes its kind.
pub open spec fn record_follows(before: RecordView, later: RecordView) -> bool {
    match (before, later) {
        (RecordView::Governance(b), RecordView::Governance(l)) => {
            &&& l.name == b.name
            &&& l.authority == b.authority
            &&& l.bump == b.bump
            &&& b.proposal_count <= l.proposal_count
        },
        (RecordView::Proposal(b), RecordView::Proposal(l)) => {
            &&& l.metadata == b.metadata
            &&& l.authority == b.authority
            &&& b.yes_votes <= l.yes_votes
            &&& b.no_votes <= l.no_votes
            &&& (b.closed ==> l == b)
        },
        (RecordView::Vote(b), RecordView::Vote(l)) => l == b,
        _ => false,
    }
}

/// A ledger as it may be found later than `before`: under the same programs,
/// with every record of `before` still at its address, as `record_follows` allows.
pub open spec fn follows(before: LedgerView, later: LedgerView) -> bool {
    &&& later.program_id == before.program_id
    &&& later.token_program == before.token_program
    &&& forall|address: Seq<u8>| #[trigger]
        before.records.contains_key(address) ==> later.records.contains_key(address)
            && record_follows(before.records[address], later.records[address])
}

/// Every ledger follows itself.
pub proof fn lemma_follows_is_reflexive(ledger: LedgerView)
    ensures
        follows(ledger, ledger),
{
    assert forall|address: Seq<u8>| #[trigger] ledger.records.contains_key(address) implies
        record_follows(ledger.records[address], ledger.records[address]) by {}
}

/// Whatever `follows` a ledger that follows another, follows that one too.
pub proof fn lemma_follows_is_transitive(first: LedgerView, second: LedgerView, third: LedgerView)
    requires
        follows(first, second),
        follows(second, third),
    ensures
        follows(first, third),
{
    assert forall|address: Seq<u8>| #[trigger] first.records.contains_key(address) implies
        third.records.contains_key(address) && record_follows(
        first.records[address],
        third.records[address],
    ) by {
        assert(second.records.contains_key(address));
    }
}

/// Records are never destroyed, never change their kind, and change only as
/// their kind allows: after any operation that succeeds, the ledger follows the
/// one before.
pub proof fn lemma_operation_keeps_history(ledger: LedgerView, operation: Operation)
    ensures
        after(ledger, operation) matches Ok(next) ==> follows(ledger, next),
{
    if let Ok(next) = after(ledger, operation) {
        assert forall|address: Seq<u8>| #[trigger] ledger.records.contains_key(address) implies
            next.records.contains_key(address) && record_follows(
            ledger.records[address],
            next.records[address],
        ) by {
            // a record that the operation did not write is as it was
            assert(record_follows(ledger.records[address], ledger.records[address]));
        }
    }
}

/// Whether a call of an operation succeeds or is rejected, the ledger it leaves
/// follows the ledger it found.
pub proof fn lemma_call_keeps_history(
    outcome: Result<(), ErrorCode>,
    before: LedgerView,
    later: LedgerView,
    operation: Operation,
)
    requires
        committed(outcome, before, later, after(before, operation)),
    ensures
        follows(before, later),
{
    lemma_operation_keeps_history(before, operation);
    lemma_follows_is_reflexive(before);
}

/// The same holds of any number of operations, whether they succeed or not.
pub proof fn lemma_operations_keep_history(ledger: LedgerView, operations: Seq<Operation>)
    ensures
        follows(ledger, after_all(ledger, operations)),
    decreases operations.len(),
{
    if operations.len() == 0 {
        lemma_follows_is_reflexive(ledger);
    } else {
        let so_far = after_all(ledger, operations.drop_last());
        lemma_operations_keep_history(ledger, operations.drop_last());
        lemma_operation_keeps_history(so_far, operations.last());
        if let Ok(next) = after(so_far, operations.last()) {
            lemma_follows_is_transitive(ledger, so_far, next);
        }
    }
}

/// The counter of a governance cannot run out before the records do: if every
/// counter is below the number of records, it still is after any operation.
pub proof fn lemma_counters_keep_room(ledger: LedgerView, operation: Operation)
    requires
        counters_have_room(ledger.records),
    ensures
        after(ledger, operation) matches Ok(next) ==> counters_have_room(next.records),
{
    if let Ok(next) = after(ledger, operation) {
        lemma_operation_keeps_history(ledger, operation);
    }
}

/// A voter votes at most once on a proposal. Once a vote of `voter` on
/// `proposal` has succeeded, every further attempt of that voter on that
/// proposal is rejected, in whatever ledger follows and whatever direction and
/// balance it comes with: with `DuplicateVote` while the proposal is open, and
/// with `ProposalClosed` after.
pub proof fn lemma_vote_is_unique(
    ledger: LedgerView,
    voter: Seq<u8>,
    proposal: Seq<u8>,
    vote_type: u8,
    account: TokenAccountView,
    later: LedgerView,
    again_type: u8,
    again_account: TokenAccountView,
)
    requires
        after_cast_vote(ledger, voter, proposal, vote_type, account) matches Ok(next) && follows(
            next,
            later,
        ),
    ensures
        later.proposal_at(proposal) matches Some(question) && after_cast_vote(
            later,
            voter,
            proposal,
            again_type,
            again_account,
        ) == Err::<LedgerView, ErrorCode>(
            if question.closed {
                ErrorCode::ProposalClosed
            } else {
                ErrorCode::DuplicateVote
            },
        ),
{
    let next = after_cast_vote(ledger, voter, proposal, vote_type, account)->Ok_0;
    let address = derived(vote_seeds(voter, proposal), ledger.program_id)->Ok_0.0;
    assert(next.records.contains_key(address));
    assert(next.records.contains_key(proposal));
}

/// Closing is final. Once a closure of `proposal` has succeeded, every further
/// closure is rejected in whatever ledger follows: with `ProposalAlreadyClosed`
/// when the authority asks again, with `Unauthorized` when anyone else does.
pub proof fn lemma_close_is_final(
    ledger: LedgerView,
    caller: Seq<u8>,
    proposal: Seq<u8>,
    later: LedgerView,
    again: Seq<u8>,
)
    requires
        after_close_proposal(ledger, caller, proposal) matches Ok(next) && follows(next, later),
    ensures
        after_close_proposal(later, again, proposal) == Err::<LedgerView, ErrorCode>(
            if again == caller {
                ErrorCode::ProposalAlreadyClosed
            } else {
                ErrorCode::Unauthorized
            },
        ),
        later.proposal_at(proposal) == after_close_proposal(ledger, caller, proposal)->Ok_0.proposal_at(
            proposal,
        ),
{
    let next = after_close_proposal(ledger, caller, proposal)->Ok_0;
    assert(next.records.contains_key(proposal));
}

/// A closed proposal takes no votes: every vote on it is rejected with
/// `ProposalClosed`, whoever casts it and whatever it holds.
pub proof fn lemma_closed_rejects_votes(
    ledger: LedgerView,
    voter: Seq<u8>,
    proposal: Seq<u8>,
    vote_type: u8,
    account: TokenAccountView,
)
    requires
        ledger.proposal_at(proposal) matches Some(question) && question.closed,
    ensures
        after_cast_vote(ledger, voter, proposal, vote_type, account) == Err::<LedgerView, ErrorCode>(
            ErrorCode::ProposalClosed,
        ),
{
}

/// After a closure has succeeded, the proposal is closed in every ledger that
/// follows, with the tallies it had when it was closed, and every vote on it is
/// rejected with `ProposalClosed`.
pub proof fn lemma_closure_freezes_tallies(
    ledger: LedgerView,
    caller: Seq<u8>,
    proposal: Seq<u8>,
    later: LedgerView,
    voter: Seq<u8>,
    vote_type: u8,
    account: TokenAccountView,
)
    requires
        after_close_proposal(ledger, caller, proposal) matches Ok(next) && follows(next, later),
    ensures
        later.proposal_at(proposal) matches Some(question) && question.closed && question.yes_votes
            == ledger.proposal_at(proposal)->Some_0.yes_votes && question.no_votes
            == ledger.proposal_at(proposal)->Some_0.no_votes,
        after_cast_vote(later, voter, proposal, vote_type, account) == Err::<LedgerView, ErrorCode>(
            ErrorCode::ProposalClosed,
        ),
{
    let next = after_close_proposal(ledger, caller, proposal)->Ok_0;
    assert(next.records.contains_key(proposal));
}

/// Only the authority closes a proposal: a closure that anyone else asks for is
/// rejected with `Unauthorized`, whether the proposal is open or closed, and so
/// leaves it as it is.
pub proof fn lemma_unauthorized_close_is_rejected(ledger: LedgerView, caller: Seq<u8>, proposal: Seq<u8>)
    requires
        ledger.proposal_at(proposal) matches Some(question) && caller != question.authority,
    ensures
        after_close_proposal(ledger, caller, proposal) == Err::<LedgerView, ErrorCode>(
            ErrorCode::Unauthorized,
        ),
{
}

/// The ledger after `creator` opens one proposal after another under the
/// governance at `governance`, one for each of the given metadata, or the first
/// error that rejects one of them.
pub open spec fn after_open_proposals(
    ledger: LedgerView,
    creator: Seq<u8>,
    governance: Seq<u8>,
    metadata: Seq<Seq<char>>,
) -> Result<LedgerView, ErrorCode>
    decreases metadata.len(),
{
    if metadata.len() == 0 {
        Ok(ledger)
    } else {
        match after_open_proposals(ledger, creator, governance, metadata.drop_last()) {
            Err(e) => Err(e),
            Ok(so_far) => after_open_proposal(so_far, creator, governance, metadata.last()),
        }
    }
}

/// The governance with `opened` more proposals counted.
pub open spec fn counted(space: GovernanceView, opened: nat) -> GovernanceView {
    GovernanceView { proposal_count: space.proposal_count + opened, ..space }
}

/// The address, with its bump seed, of the proposal that the governance at
/// `governance` opens when its counter stands at `index`.
pub open spec fn proposal_derived(ledger: LedgerView, governance: Seq<u8>, index: nat) -> Result<
    (Seq<u8>, u8),
    ErrorCode,
> {
    derived(proposal_seeds(governance, index as u64), ledger.program_id)
}

/// Proposals are counted. When n proposals are opened in a row under a
/// governance whose counter stood at c, the counter stands at c + n, and
/// nothing else about the governance has changed; for each counter value from c
/// to c + n - 1 there is a proposal at the address derived from it, open, with
/// empty tallies, the creator as authority, and the metadata given for it;
/// those n addresses were free before and differ from one another.
pub proof fn lemma_proposals_are_counted(
    ledger: LedgerView,
    creator: Seq<u8>,
    governance: Seq<u8>,
    metadata: Seq<Seq<char>>,
)
    requires
        ledger.governance_at(governance) is Some,
        after_open_proposals(ledger, creator, governance, metadata) is Ok,
    ensures
        ({
            let space = ledger.governance_at(governance)->Some_0;
            let next = after_open_proposals(ledger, creator, governance, metadata)->Ok_0;
            let first = space.proposal_count;
            &&& follows(ledger, next)
            &&& next.governance_at(governance) == Some(counted(space, metadata.len()))
            &&& forall|index: nat|
                first <= index < first + metadata.len() ==> ({
                    &&& (#[trigger] proposal_derived(ledger, governance, index)) matches Ok(
                        (address, _),
                    )
                    &&& !ledger.records.contains_key(address)
                    &&& next.proposal_at(address) == Some(
                        proposal_opened(creator, metadata[index - first]),
                    )
                })
            &&& forall|one: nat, other: nat|
                first <= one < other < first + metadata.len() ==> (#[trigger] proposal_derived(
                    ledger,
                    governance,
                    one,
                ))->Ok_0.0 != (#[trigger] proposal_derived(ledger, governance, other))->Ok_0.0
        }),
    decreases metadata.len(),
{
    let n = metadata.len();
    let space = ledger.governance_at(governance)->Some_0;
    let first = space.proposal_count;
    if n == 0 {
        lemma_follows_is_reflexive(ledger);
    } else {
        let earlier = metadata.drop_last();
        let so_far = after_open_proposals(ledger, creator, governance, earlier)->Ok_0;
        let next = after_open_proposals(ledger, creator, governance, metadata)->Ok_0;
        assert(after_open_proposal(so_far, creator, governance, metadata.last()) == Ok::<
            LedgerView,
            ErrorCode,
        >(next));
        lemma_operation_keeps_history(
            so_far,
            Operation::OpenProposal { creator, governance, metadata: metadata.last() },
        );
        lemma_proposals_are_counted(ledger, creator, governance, earlier);
        lemma_follows_is_transitive(ledger, so_far, next);
        let newest = (first + n - 1) as nat;
        assert forall|index: nat| first <= index < first + n implies ({
            &&& (#[trigger] proposal_derived(ledger, governance, index)) matches Ok((address, _))
            &&& !ledger.records.contains_key(address)
            &&& next.proposal_at(address) == Some(proposal_opened(creator, metadata[index - first]))
        }) by {
            if index < newest {
                // an earlier proposal: the newest was created elsewhere
                assert(so_far.records.contains_key(
                    proposal_derived(ledger, governance, index)->Ok_0.0,
                ));
            }
        }
        assert forall|one: nat, other: nat| first <= one < other < first + n implies (
        #[trigger] proposal_derived(ledger, governance, one))->Ok_0.0 != (#[trigger] proposal_derived(
            ledger,
            governance,
            other,
        ))->Ok_0.0 by {
            if other == newest {
                // the address of the newest was free when the earlier ones were taken
                assert(so_far.records.contains_key(
                    proposal_derived(ledger, governance, one)->Ok_0.0,
                ));
            }
        }
    }
}

} // verus!
