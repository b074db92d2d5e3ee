//! The lifecycle controller: the four operations on a ledger of records. Each
//! checks its preconditions in a fixed order, and either commits all of its
//! effects or fails with a typed error and no effect at all.

use vstd::prelude::*;
use crate::address::{
    derived, governance_address, governance_seeds, proposal_address, proposal_seeds, vote_address,
    vote_seeds, Address,
};
use crate::error::ErrorCode;
use crate::instructions::cast_vote::{cast_vote, vote_cast, vote_fits, vote_has_room, CastVote};
use crate::instructions::close_proposal::{close_proposal, proposal_closed, CloseProposal};
use crate::instructions::init::{governance_opened, init, Init};
use crate::instructions::init_proposal::{
    init_proposal, proposal_counted, proposal_opened, InitProposal,
};
use crate::state::{
    Governance, GovernanceView, Proposal, ProposalView, Record, RecordView, Vote, VoteView,
};
use crate::store::RecordStore;
use crate::token::{TokenAccount, TokenAccountView};

verus! {

/// The records of one deployment of the voting program: the program under which
/// addresses are derived, the token program under which balances count, and the
/// store of governances, proposals and votes.
pub struct Ledger {
    program_id: Address,
    token_program: Address,
    store: RecordStore,
}

/// The mathematical view of a ledger.
pub struct LedgerView {
    pub program_id: Seq<u8>,
    pub token_program: Seq<u8>,
    /// The record at each address in use.
    pub records: Map<Seq<u8>, RecordView>,
}

impl LedgerView {
    /// The governance that lives at the address, if one does.
    pub open spec fn governance_at(self, address: Seq<u8>) -> Option<GovernanceView> {
        if self.records.contains_key(address) {
            match self.records[address] {
                RecordView::Governance(governance) => Some(governance),
                _ => None,
            }
        } else {
            None
        }
    }

    /// The proposal that lives at the address, if one does.
    pub open spec fn proposal_at(self, address: Seq<u8>) -> Option<ProposalView> {
        if self.records.contains_key(address) {
            match self.records[address] {
                RecordView::Proposal(proposal) => Some(proposal),
                _ => None,
            }
        } else {
            None
        }
    }

    /// The vote that lives at the address, if one does.
    pub open spec fn vote_at(self, address: Seq<u8>) -> Option<VoteView> {
        if self.records.contains_key(address) {
            match self.records[address] {
                RecordView::Vote(vote) => Some(vote),
                _ => None,
            }
        } else {
            None
        }
    }

    /// The tally that a vote on the proposal at `proposal` would raise has room
    /// for it.
    pub open spec fn vote_fits(
        self,
        voter: Seq<u8>,
        proposal: Seq<u8>,
        vote_type: u8,
        account: TokenAccountView,
    ) -> bool {
        self.proposal_at(proposal) matches Some(question) ==> vote_fits(
            question,
            voter,
            vote_type,
            account,
            self.token_program,
        )
    }

    /// The ledger with the record written at the address.
    pub open spec fn with_record(self, address: Seq<u8>, record: RecordView) -> LedgerView {
        LedgerView { records: self.records.insert(address, record), ..self }
    }
}

/// The ledger after `creator` opens a governance under `name`, or the error
/// that rejects the call: `AddressSpaceExhausted` if the governance has no
/// address, `RecordAlreadyExists` if its address is taken.
pub open spec fn after_open_governance(ledger: LedgerView, creator: Seq<u8>, name: Seq<char>) -> Result<
    LedgerView,
    ErrorCode,
> {
    match derived(governance_seeds(creator, name), ledger.program_id) {
        Err(e) => Err(e),
        Ok((address, bump)) => {
            if ledger.records.contains_key(address) {
                Err(ErrorCode::RecordAlreadyExists)
            } else {
                Ok(
                    ledger.with_record(
                        address,
                        RecordView::Governance(governance_opened(creator, name, bump)),
                    ),
                )
            }
        },
    }
}

/// The ledger after `creator` opens a proposal under the governance at
/// `governance`, or the error that rejects the call: `RecordNotFound` if no
/// governance lives there, or one that is not at the address derived from the
/// creator and its name; `AddressSpaceExhausted` if a derivation finds no
/// address; `RecordAlreadyExists` if the proposal's address is taken.
pub open spec fn after_open_proposal(
    ledger: LedgerView,
    creator: Seq<u8>,
    governance: Seq<u8>,
    metadata: Seq<char>,
) -> Result<LedgerView, ErrorCode> {
    match ledger.governance_at(governance) {
        None => Err(ErrorCode::RecordNotFound),
        Some(space) => match derived(governance_seeds(creator, space.name), ledger.program_id) {
            Err(e) => Err(e),
            Ok((expected, _)) => {
                if expected != governance {
                    Err(ErrorCode::RecordNotFound)
                } else {
                    match derived(
                        proposal_seeds(governance, space.proposal_count as u64),
                        ledger.program_id,
                    ) {
                        Err(e) => Err(e),
                        Ok((address, _)) => {
                            if ledger.records.contains_key(address) {
                                Err(ErrorCode::RecordAlreadyExists)
                            } else {
                                Ok(
                                    ledger.with_record(
                                        address,
                                        RecordView::Proposal(proposal_opened(creator, metadata)),
                                    ).with_record(
                                        governance,
                                        RecordView::Governance(proposal_counted(space)),
                                    ),
                                )
                            }
                        },
                    }
                }
            },
        },
    }
}

/// The ledger after `voter` votes on the proposal at `proposal`, or the error
/// that rejects the call, the first that applies of: `RecordNotFound` if no
/// proposal lives there; `ProposalClosed` if it is closed;
/// `AddressSpaceExhausted` if the vote has no address; `DuplicateVote` if the
/// vote's address is taken; `InvalidVoteType` and `AssetAccountMismatch` as
/// `vote_cast` says.
pub open spec fn after_cast_vote(
    ledger: LedgerView,
    voter: Seq<u8>,
    proposal: Seq<u8>,
    vote_type: u8,
    account: TokenAccountView,
) -> Result<LedgerView, ErrorCode> {
    match ledger.proposal_at(proposal) {
        None => Err(ErrorCode::RecordNotFound),
        Some(question) => {
            if question.closed {
                Err(ErrorCode::ProposalClosed)
            } else {
                match derived(vote_seeds(voter, proposal), ledger.program_id) {
                    Err(e) => Err(e),
                    Ok((address, _)) => {
                        if ledger.records.contains_key(address) {
                            Err(ErrorCode::DuplicateVote)
                        } else {
                            match vote_cast(question, voter, vote_type, account, ledger.token_program) {
                                Err(e) => Err(e),
                                Ok((tallied, vote)) => Ok(
                                    ledger.with_record(address, RecordView::Vote(vote)).with_record(
                                        proposal,
                                        RecordView::Proposal(tallied),
                                    ),
                                ),
                            }
                        }
                    },
                }
            }
        },
    }
}

/// The ledger after `caller` closes the proposal at `proposal`, or the error
/// that rejects the call: `RecordNotFound` if no proposal lives there, else
/// `Unauthorized` or `ProposalAlreadyClosed` as `proposal_closed` says.
pub open spec fn after_close_proposal(ledger: LedgerView, caller: Seq<u8>, proposal: Seq<u8>) -> Result<
    LedgerView,
    ErrorCode,
> {
    match ledger.proposal_at(proposal) {
        None => Err(ErrorCode::RecordNotFound),
        Some(question) => match proposal_closed(question, caller) {
            Err(e) => Err(e),
            Ok(closed) => Ok(ledger.with_record(proposal, RecordView::Proposal(closed))),
        },
    }
}

/// An operation that was owed `expected` took the ledger from `before` to
/// `after` with `outcome`: it succeeded into the expected ledger, or failed
/// with the expected error and left the ledger as it was.
pub open spec fn committed(
    outcome: Result<(), ErrorCode>,
    before: LedgerView,
    after: LedgerView,
    expected: Result<LedgerView, ErrorCode>,
) -> bool {
    match expected {
        Ok(next) => outcome is Ok && after == next,
        Err(e) => outcome == Err::<(), ErrorCode>(e) && after == before,
    }
}

/// Every governance's counter is below the number of records: each proposal
/// it has counted is a record, and so is the governance itself.
pub open spec fn counters_have_room(records: Map<Seq<u8>, RecordView>) -> bool {
    &&& records.dom().finite()
    &&& forall|address: Seq<u8>| #[trigger]
        records.contains_key(address) ==> (records[address] matches RecordView::Governance(space)
            ==> space.proposal_count < records.dom().len())
}

impl View for Ledger {
    type V = LedgerView;

    closed spec fn view(&self) -> LedgerView {
        LedgerView {
            program_id: self.program_id@,
            token_program: self.token_program@,
            records: self.store@,
        }
    }
}

impl Ledger {
    /// What holds of every ledger: no counter can overflow before memory runs out.
    #[verifier::type_invariant]
    spec fn well_formed(self) -> bool {
        counters_have_room(self.store@)
    }

    /// An empty ledger for the given program, with the token program whose
    /// balances give votes their weight.
    pub fn new(program_id: Address, token_program: Address) -> (ledger: Ledger)
        ensures
            ledger@ == (LedgerView {
                program_id: program_id@,
                token_program: token_program@,
                records: Map::<Seq<u8>, RecordView>::empty(),
            }),
    {
        Ledger { program_id, token_program, store: RecordStore::new() }
    }

    /// The program under which the ledger derives addresses.
    pub fn program_id(&self) -> (program_id: Address)
        ensures
            program_id@ == self@.program_id,
    {
        self.program_id
    }

    /// The token program whose balances give votes their weight.
    pub fn token_program(&self) -> (token_program: Address)
        ensures
            token_program@ == self@.token_program,
    {
        self.token_program
    }

    /// Whether any record lives at the address.
    pub fn contains(&self, address: &Address) -> (occupied: bool)
        ensures
            occupied == self@.records.contains_key(address@),
    {
        self.store.contains(address)
    }

    /// The governance at the address, or `RecordNotFound` if none lives there.
    pub fn governance(&self, address: &Address) -> (found: Result<Governance, ErrorCode>)
        ensures
            match self@.governance_at(address@) {
                Some(governance) => found matches Ok(record) && record@ == governance,
                None => found == Err::<Governance, ErrorCode>(ErrorCode::RecordNotFound),
            },
    {
        match self.store.read(address) {
            Ok(Record::Governance(governance)) => Ok(governance),
            _ => Err(ErrorCode::RecordNotFound),
        }
    }

    /// The proposal at the address, or `RecordNotFound` if none lives there.
    pub fn proposal(&self, address: &Address) -> (found: Result<Proposal, ErrorCode>)
        ensures
            match self@.proposal_at(address@) {
                Some(proposal) => found matches Ok(record) && record@ == proposal,
                None => found == Err::<Proposal, ErrorCode>(ErrorCode::RecordNotFound),
            },
    {
        match self.store.read(address) {
            Ok(Record::Proposal(proposal)) => Ok(proposal),
            _ => Err(ErrorCode::RecordNotFound),
        }
    }

    /// The vote at the address, or `RecordNotFound` if none lives there.
    pub fn vote(&self, address: &Address) -> (found: Result<Vote, ErrorCode>)
        ensures
            match self@.vote_at(address@) {
                Some(vote) => found matches Ok(record) && record@ == vote,
                None => found == Err::<Vote, ErrorCode>(ErrorCode::RecordNotFound),
            },
    {
        match self.store.read(address) {
            Ok(Record::Vote(vote)) => Ok(vote),
            _ => Err(ErrorCode::RecordNotFound),
        }
    }

    /// Opens a governance named `name`, with `creator` as its authority and no
    /// proposals, at the address derived from creator and name. Fails with
    /// `AddressSpaceExhausted` if the derivation finds no address, and with
    /// `RecordAlreadyExists` if the address is taken, as it is once the creator
    /// has opened a governance of that name.
    pub fn open_governance(&mut self, creator: &Address, name: String) -> (outcome: Result<
        (),
        ErrorCode,
    >)
        ensures
            committed(
                outcome,
                old(self)@,
                final(self)@,
                after_open_governance(old(self)@, creator@, name@),
            ),
    {
        let (address, bump) = match governance_address(creator, name.as_str(), &self.program_id) {
            Ok(found) => found,
            Err(e) => {
                return Err(e);
            },
        };
        if self.store.contains(&address) {
            return Err(ErrorCode::RecordAlreadyExists);
        }
        let mut ctx = Init { creator: *creator, gov_account: Governance::default(), bump };
        match init(&mut ctx, name) {
            Ok(()) => {},
            Err(e) => {
                return Err(e);
            },
        }
        proof {
            use_type_invariant(&*self);
        }
        // the store is written outside the ledger, which is well formed whenever it is borrowed
        let mut store = RecordStore::new();
        core::mem::swap(&mut self.store, &mut store);
        let outcome = store.create(address, Record::Governance(ctx.gov_account));
        core::mem::swap(&mut self.store, &mut store);
        outcome
    }

    /// Opens a proposal with `metadata` under the governance at `governance`,
    /// with `creator` as its authority, at the address derived from the
    /// governance and its proposal counter, and raises that counter by one. The
    /// governance must be the creator's own: the one at the address derived
    /// from the creator and its name. Fails with `RecordNotFound` if it is not
    /// there, with `AddressSpaceExhausted` if a derivation finds no address, and
    /// with `RecordAlreadyExists` if the proposal's address is taken.
    pub fn open_proposal(&mut self, creator: &Address, governance: &Address, metadata: String) -> (outcome:
        Result<(), ErrorCode>)
        ensures
            committed(
                outcome,
                old(self)@,
                final(self)@,
                after_open_proposal(old(self)@, creator@, governance@, metadata@),
            ),
    {
        let space = match self.governance(governance) {
            Ok(space) => space,
            Err(e) => {
                return Err(e);
            },
        };
        match governance_address(creator, space.name.as_str(), &self.program_id) {
            Ok((expected, _)) => {
                if expected != *governance {
                    return Err(ErrorCode::RecordNotFound);
                }
            },
            Err(e) => {
                return Err(e);
            },
        }
        let (address, _) = match proposal_address(governance, space.proposal_count, &self.program_id) {
            Ok(found) => found,
            Err(e) => {
                return Err(e);
            },
        };
        if self.store.contains(&address) {
            return Err(ErrorCode::RecordAlreadyExists);
        }
        // the counter has room: it is below the number of records
        let records = self.store.len();
        proof {
            use_type_invariant(&*self);
            assert(self.store@.contains_key(governance@));
            assert(space.proposal_count < records);
        }
        let mut ctx = InitProposal {
            creator: *creator,
            gov_account: space,
            proposal: Proposal::default(),
        };
        match init_proposal(&mut ctx, metadata) {
            Ok(()) => {},
            Err(e) => {
                return Err(e);
            },
        }
        // the store is written outside the ledger, which is well formed whenever it is borrowed
        let mut store = RecordStore::new();
        core::mem::swap(&mut self.store, &mut store);
        let outcome = match store.create(address, Record::Proposal(ctx.proposal)) {
            Ok(()) => store.update(governance, Record::Governance(ctx.gov_account)),
            Err(e) => Err(e),
        };
        core::mem::swap(&mut self.store, &mut store);
        outcome
    }

    /// Tests whether the tally that a vote would raise has room for it, which
    /// `cast_vote` asks of its caller.
    pub fn vote_has_room(
        &self,
        voter: &Address,
        proposal: &Address,
        vote_type: u8,
        token_account: &TokenAccount,
    ) -> (fits: bool)
        ensures
            fits == self@.vote_fits(voter@, proposal@, vote_type, token_account@),
    {
        match self.proposal(proposal) {
            Ok(question) => vote_has_room(
                &question,
                voter,
                vote_type,
                token_account,
                &self.token_program,
            ),
            Err(_) => true,
        }
    }

    /// Casts the vote of `voter` on the proposal at `proposal`: creates the vote
    /// record at the address derived from voter and proposal, with the floor of
    /// the square root of the voter's balance as credits, and adds those credits
    /// to the proposal's tally of the chosen direction. Fails, in this order,
    /// with `RecordNotFound` if no proposal lives at the address, with
    /// `ProposalClosed` if it is closed, with `AddressSpaceExhausted` if the
    /// vote has no address, with `DuplicateVote` if the voter has voted on the
    /// proposal before, with `InvalidVoteType` if the direction is neither 0 nor
    /// 1, and with `AssetAccountMismatch` if the account proves no balance for
    /// the voter. The raised tally must fit in 64 bits, which `vote_has_room`
    /// tests.
    pub fn cast_vote(
        &mut self,
        voter: &Address,
        proposal: &Address,
        vote_type: u8,
        token_account: TokenAccount,
    ) -> (outcome: Result<(), ErrorCode>)
        requires
            old(self)@.vote_fits(voter@, proposal@, vote_type, token_account@),
        ensures
            committed(
                outcome,
                old(self)@,
                final(self)@,
                after_cast_vote(old(self)@, voter@, proposal@, vote_type, token_account@),
            ),
    {
        let question = match self.proposal(proposal) {
            Ok(question) => question,
            Err(e) => {
                return Err(e);
            },
        };
        if question.closed {
            return Err(ErrorCode::ProposalClosed);
        }
        let (address, _) = match vote_address(voter, proposal, &self.program_id) {
            Ok(found) => found,
            Err(e) => {
                return Err(e);
            },
        };
        if self.store.contains(&address) {
            return Err(ErrorCode::DuplicateVote);
        }
        let mut ctx = CastVote {
            voter: *voter,
            proposal: question,
            vote_account: Vote::default(),
            creator_token_account: token_account,
            token_program: self.token_program,
        };
        match cast_vote(&mut ctx, vote_type) {
            Ok(()) => {},
            Err(e) => {
                return Err(e);
            },
        }
        proof {
            use_type_invariant(&*self);
        }
        // the store is written outside the ledger, which is well formed whenever it is borrowed
        let mut store = RecordStore::new();
        core::mem::swap(&mut self.store, &mut store);
        let outcome = match store.create(address, Record::Vote(ctx.vote_account)) {
            Ok(()) => store.update(proposal, Record::Proposal(ctx.proposal)),
            Err(e) => Err(e),
        };
        core::mem::swap(&mut self.store, &mut store);
        outcome
    }

    /// Closes the proposal at `proposal` on behalf of `caller`, which freezes
    /// its tallies for good. Fails with `RecordNotFound` if no proposal lives at
    /// the address, with `Unauthorized` if the caller is not the proposal's
    /// authority, and with `ProposalAlreadyClosed` if it is closed already.
    pub fn close_proposal(&mut self, caller: &Address, proposal: &Address) -> (outcome: Result<
        (),
        ErrorCode,
    >)
        ensures
            committed(
                outcome,
                old(self)@,
                final(self)@,
                after_close_proposal(old(self)@, caller@, proposal@),
            ),
    {
        let question = match self.proposal(proposal) {
            Ok(question) => question,
            Err(e) => {
                return Err(e);
            },
        };
        let mut ctx = CloseProposal { authority: *caller, proposal: question };
        match close_proposal(&mut ctx) {
            Ok(()) => {},
            Err(e) => {
                return Err(e);
            },
        }
        proof {
            use_type_invariant(&*self);
        }
        // the store is written outside the ledger, which is well formed whenever it is borrowed
        let mut store = RecordStore::new();
        core::mem::swap(&mut self.store, &mut store);
        let outcome = store.update(proposal, Record::Proposal(ctx.proposal));
        core::mem::swap(&mut self.store, &mut store);
        outcome
    }
}

} // verus!
