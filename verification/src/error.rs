//! The typed failures of the four governance operations.

use vstd::prelude::*;

verus! {

/// Why an operation was rejected. Every rejection is decided before any record
/// is written, so a call that returns one of these leaves all records as they were.
#[derive(Clone, Copy, Debug, PartialEq, Eq, Structural)]
pub enum ErrorCode {
    /// The caller is not the authority of the proposal it tried to close.
    Unauthorized,
    /// The proposal to close is closed already.
    ProposalAlreadyClosed,
    /// A vote was cast on a closed proposal.
    ProposalClosed,
    /// The voter has voted on this proposal before.
    DuplicateVote,
    /// No record of the expected kind lives at the given address.
    RecordNotFound,
    /// The address of the record to create is taken.
    RecordAlreadyExists,
    /// The vote direction is neither 0 (no) nor 1 (yes).
    InvalidVoteType,
    /// The balance account is not held by the voter under the designated token program.
    AssetAccountMismatch,
    /// No bump seed yields a usable address for the given seeds.
    AddressSpaceExhausted,
}

impl ErrorCode {
    /// The human-readable message of each failure.
    pub open spec fn message_text(self) -> Seq<char> {
        match self {
            ErrorCode::Unauthorized => "Unauthorized"@,
            ErrorCode::ProposalAlreadyClosed => "Proposal already closed"@,
            ErrorCode::ProposalClosed => "Proposal closed"@,
            ErrorCode::DuplicateVote => "Duplicate vote"@,
            ErrorCode::RecordNotFound => "Record not found"@,
            ErrorCode::RecordAlreadyExists => "Record already exists"@,
            ErrorCode::InvalidVoteType => "Invalid vote type"@,
            ErrorCode::AssetAccountMismatch => "Asset account mismatch"@,
            ErrorCode::AddressSpaceExhausted => "Address space exhausted"@,
        }
    }

    /// Returns the message that describes this failure.
    pub fn message(&self) -> (text: &'static str)
        ensures
            text@ == self.message_text(),
    {
        match self {
            ErrorCode::Unauthorized => "Unauthorized",
            ErrorCode::ProposalAlreadyClosed => "Proposal already closed",
            ErrorCode::ProposalClosed => "Proposal closed",
            ErrorCode::DuplicateVote => "Duplicate vote",
            ErrorCode::RecordNotFound => "Record not found",
            ErrorCode::RecordAlreadyExists => "Record already exists",
            ErrorCode::InvalidVoteType => "Invalid vote type",
            ErrorCode::AssetAccountMismatch => "Asset account mismatch",
            ErrorCode::AddressSpaceExhausted => "Address space exhausted",
        }
    }
}

} // verus!
