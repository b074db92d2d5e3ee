//! The three kinds of record, with the mathematical view of each.

use vstd::prelude::*;
use crate::address::Address;
use crate::error::ErrorCode;

verus! {

/// The direction of a vote.
#[derive(Clone, Copy, Debug, PartialEq, Eq, Structural)]
pub enum VoteType {
    No,
    Yes,
}

impl VoteType {
    /// The number that stands for a direction: 0 for no, 1 for yes.
    pub open spec fn code(self) -> u8 {
        match self {
            VoteType::No => 0,
            VoteType::Yes => 1,
        }
    }

    /// The direction that a number stands for, if any.
    pub open spec fn from_code(code: u8) -> Result<VoteType, ErrorCode> {
        if code == 0 {
            Ok(VoteType::No)
        } else if code == 1 {
            Ok(VoteType::Yes)
        } else {
            Err(ErrorCode::InvalidVoteType)
        }
    }

    /// Reads a direction: 0 is no, 1 is yes, anything else is `InvalidVoteType`.
    pub fn from_u8(code: u8) -> (direction: Result<VoteType, ErrorCode>)
        ensures
            direction == Self::from_code(code),
    {
        if code == 0 {
            Ok(VoteType::No)
        } else if code == 1 {
            Ok(VoteType::Yes)
        } else {
            Err(ErrorCode::InvalidVoteType)
        }
    }

    /// The number that stands for this direction.
    pub fn as_u8(&self) -> (code: u8)
        ensures
            code == self.code(),
            Self::from_code(code) == Ok::<VoteType, ErrorCode>(*self),
    {
        match self {
            VoteType::No => 0,
            VoteType::Yes => 1,
        }
    }
}

/// A named voting space. Nothing in it changes after creation but the proposal
/// counter, which rises by one with each proposal opened.
#[derive(Debug, PartialEq, Eq)]
pub struct Governance {
    pub name: String,
    /// The creator.
    pub authority: Address,
    /// How many proposals were opened; also the index of the next one.
    pub proposal_count: u64,
    /// The bump seed of the governance's address.
    pub bump: u8,
}

/// The mathematical view of a governance.
pub struct GovernanceView {
    pub name: Seq<char>,
    pub authority: Seq<u8>,
    pub proposal_count: nat,
    pub bump: u8,
}

impl View for Governance {
    type V = GovernanceView;

    open spec fn view(&self) -> GovernanceView {
        GovernanceView {
            name: self.name@,
            authority: self.authority@,
            proposal_count: self.proposal_count as nat,
            bump: self.bump,
        }
    }
}

impl Clone for Governance {
    fn clone(&self) -> (copy: Self)
        ensures
            copy == *self,
    {
        Governance {
            name: self.name.clone(),
            authority: self.authority,
            proposal_count: self.proposal_count,
            bump: self.bump,
        }
    }
}

impl Default for Governance {
    /// A governance record before it is filled in.
    fn default() -> (blank: Self)
        ensures
            blank@ == (GovernanceView {
                name: Seq::<char>::empty(),
                authority: Seq::new(32, |i: int| 0u8),
                proposal_count: 0,
                bump: 0,
            }),
    {
        let blank = Governance {
            name: String::new(),
            authority: Address::new([0u8;32]),
            proposal_count: 0,
            bump: 0,
        };
        assert(blank.authority@ =~= Seq::new(32, |i: int| 0u8));
        blank
    }
}

/// A question under a governance, with its running tallies. It is open until
/// its authority closes it, and closed for ever after.
#[derive(Debug, PartialEq, Eq)]
pub struct Proposal {
    pub metadata: String,
    /// The principal that may close the proposal.
    pub authority: Address,
    pub yes_votes: u64,
    pub no_votes: u64,
    pub closed: bool,
}

/// The mathematical view of a proposal.
pub struct ProposalView {
    pub metadata: Seq<char>,
    pub authority: Seq<u8>,
    pub yes_votes: nat,
    pub no_votes: nat,
    pub closed: bool,
}

impl ProposalView {
    /// Both tallies fit in 64 bits.
    pub open spec fn fits(self) -> bool {
        self.yes_votes <= u64::MAX && self.no_votes <= u64::MAX
    }
}

impl View for Proposal {
    type V = ProposalView;

    open spec fn view(&self) -> ProposalView {
        ProposalView {
            metadata: self.metadata@,
            authority: self.authority@,
            yes_votes: self.yes_votes as nat,
            no_votes: self.no_votes as nat,
            closed: self.closed,
        }
    }
}

impl Clone for Proposal {
    fn clone(&self) -> (copy: Self)
        ensures
            copy == *self,
    {
        Proposal {
            metadata: self.metadata.clone(),
            authority: self.authority,
            yes_votes: self.yes_votes,
            no_votes: self.no_votes,
            closed: self.closed,
        }
    }
}

impl Default for Proposal {
    /// A proposal record before it is filled in.
    fn default() -> (blank: Self)
        ensures
            blank@ == (ProposalView {
                metadata: Seq::<char>::empty(),
                authority: Seq::new(32, |i: int| 0u8),
                yes_votes: 0,
                no_votes: 0,
                closed: false,
            }),
    {
        let blank = Proposal {
            metadata: String::new(),
            authority: Address::new([0u8;32]),
            yes_votes: 0,
            no_votes: 0,
            closed: false,
        };
        assert(blank.authority@ =~= Seq::new(32, |i: int| 0u8));
        blank
    }
}

/// One voter's choice on one proposal, with the weight it had. Never changed
/// once written.
#[derive(Clone, Copy, Debug, PartialEq, Eq)]
pub struct Vote {
    pub vote_type: VoteType,
    /// The voter.
    pub authority: Address,
    pub credits: u64,
}

/// The mathematical view of a vote.
pub struct VoteView {
    pub vote_type: VoteType,
    pub authority: Seq<u8>,
    pub credits: nat,
}

impl View for Vote {
    type V = VoteView;

    open spec fn view(&self) -> VoteView {
        VoteView {
            vote_type: self.vote_type,
            authority: self.authority@,
            credits: self.credits as nat,
        }
    }
}

impl Default for Vote {
    /// A vote record before it is filled in.
    fn default() -> (blank: Self)
        ensures
            blank@ == (VoteView {
                vote_type: VoteType::No,
                authority: Seq::new(32, |i: int| 0u8),
                credits: 0,
            }),
    {
        let blank = Vote { vote_type: VoteType::No, authority: Address::new([0u8;32]), credits: 0 };
        assert(blank.authority@ =~= Seq::new(32, |i: int| 0u8));
        blank
    }
}

/// A record of any kind, as the store keeps it.
#[derive(Debug, PartialEq, Eq)]
pub enum Record {
    Governance(Governance),
    Proposal(Proposal),
    Vote(Vote),
}

/// The mathematical view of a record.
pub enum RecordView {
    Governance(GovernanceView),
    Proposal(ProposalView),
    Vote(VoteView),
}

impl View for Record {
    type V = RecordView;

    open spec fn view(&self) -> RecordView {
        match self {
            Record::Governance(governance) => RecordView::Governance(governance@),
            Record::Proposal(proposal) => RecordView::Proposal(proposal@),
            Record::Vote(vote) => RecordView::Vote(vote@),
        }
    }
}

impl Clone for Record {
    fn clone(&self) -> (copy: Self)
        ensures
            copy == *self,
    {
        match self {
            Record::Governance(governance) => Record::Governance(governance.clone()),
            Record::Proposal(proposal) => Record::Proposal(proposal.clone()),
            Record::Vote(vote) => Record::Vote(*vote),
        }
    }
}

} // verus!
