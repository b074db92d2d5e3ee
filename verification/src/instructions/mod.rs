//! The four instructions. Each takes the records it works on, already looked
//! up, and applies the rule of its operation to them.

pub mod cast_vote;
pub mod close_proposal;
pub mod init;
pub mod init_proposal;

pub use cast_vote::{cast_vote, vote_cast, vote_fits, vote_has_room, CastVote};
pub use close_proposal::{close_proposal, proposal_closed, CloseProposal};
pub use init::{governance_opened, init, Init};
pub use init_proposal::{init_proposal, proposal_opened, InitProposal};
