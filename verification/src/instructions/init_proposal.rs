//! Opening a proposal under a governance.

use vstd::prelude::*;
use crate::address::Address;
use crate::error::ErrorCode;
use crate::state::{Governance, GovernanceView, Proposal, ProposalView};

verus! {

/// The accounts of `init_proposal`.
pub struct InitProposal {
    /// The principal that opens the proposal.
    pub creator: Address,
    /// The governance under which it opens.
    pub gov_account: Governance,
    /// The record to fill in, at the address derived from the governance and its counter.
    pub proposal: Proposal,
}

/// The proposal that `creator` opens with `metadata`: open, with empty tallies.
pub open spec fn proposal_opened(creator: Seq<u8>, metadata: Seq<char>) -> ProposalView {
    ProposalView { metadata, authority: creator, yes_votes: 0, no_votes: 0, closed: false }
}

/// The governance after one more proposal was opened under it.
pub open spec fn proposal_counted(governance: GovernanceView) -> GovernanceView {
    GovernanceView { proposal_count: governance.proposal_count + 1, ..governance }
}

/// Fills in the proposal record (the given metadata, the creator as authority,
/// empty tallies, open) and raises the governance's proposal counter by one.
/// Always succeeds. The counter must have room for one more.
pub fn init_proposal(ctx: &mut InitProposal, metadata: String) -> (outcome: Result<(), ErrorCode>)
    requires
        old(ctx).gov_account.proposal_count < u64::MAX,
    ensures
        outcome is Ok,
        final(ctx).proposal@ == proposal_opened(old(ctx).creator@, metadata@),
        final(ctx).gov_account@ == proposal_counted(old(ctx).gov_account@),
        final(ctx).creator == old(ctx).creator,
{
    ctx.proposal =
    Proposal { metadata, authority: ctx.creator, yes_votes: 0, no_votes: 0, closed: false };
    ctx.gov_account.proposal_count = ctx.gov_account.proposal_count + 1;
    Ok(())
}

} // verus!
