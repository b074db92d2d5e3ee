//! Opening a governance.

use vstd::prelude::*;
use crate::address::Address;
use crate::error::ErrorCode;
use crate::state::{Governance, GovernanceView};

verus! {

/// The accounts of `init`.
pub struct Init {
    /// The principal that opens the governance.
    pub creator: Address,
    /// The record to fill in, at the address derived from creator and name.
    pub gov_account: Governance,
    /// The bump seed of that address.
    pub bump: u8,
}

/// The governance that `creator` opens under `name`: it has no proposals yet.
pub open spec fn governance_opened(creator: Seq<u8>, name: Seq<char>, bump: u8) -> GovernanceView {
    GovernanceView { name, authority: creator, proposal_count: 0, bump }
}

/// Fills in the governance record: the given name, the creator as authority,
/// no proposals, and the bump seed of its address. Always succeeds.
pub fn init(ctx: &mut Init, name: String) -> (outcome: Result<(), ErrorCode>)
    ensures
        outcome is Ok,
        final(ctx).gov_account@ == governance_opened(old(ctx).creator@, name@, old(ctx).bump),
        final(ctx).creator == old(ctx).creator,
        final(ctx).bump == old(ctx).bump,
{
    ctx.gov_account = Governance { name, authority: ctx.creator, proposal_count: 0, bump: ctx.bump };
    Ok(())
}

} // verus!
