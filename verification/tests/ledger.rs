use anchor_lang::prelude::Pubkey;
use anchor_lang::solana_program::program_option::COption;
use anchor_lang::solana_program::program_pack::Pack;
use anchor_spl::token::spl_token::state::{Account, AccountState};
use anchor_voting::address::{governance_address, proposal_address, vote_address, Address};
use anchor_voting::error::ErrorCode;
use anchor_voting::ledger::Ledger;
use anchor_voting::state::{Governance, Proposal, Vote, VoteType};
use anchor_voting::token::TokenAccount;
use std::str::FromStr;

fn key(fill: u8) -> Address {
    Address::new([fill; 32])
}

fn alice() -> Address {
    key(0xA1)
}

fn bob() -> Address {
    key(0xB0)
}

fn program() -> Address {
    let id = Pubkey::from_str("4dYZjZG9xrn34WEDh2dpqFV1aGx5rhANrkQhQrVebpbJ").unwrap();
    Address::new(id.to_bytes())
}

fn token_program() -> Address {
    Address::new(anchor_spl::token::ID.to_bytes())
}

fn balance(holder: &Address, amount: u64) -> TokenAccount {
    let account = Account {
        mint: Pubkey::new_from_array([0x4D; 32]),
        owner: Pubkey::new_from_array(holder.bytes),
        amount,
        delegate: COption::None,
        state: AccountState::Initialized,
        is_native: COption::None,
        delegated_amount: 0,
        close_authority: COption::None,
    };
    let mut data = vec![0u8; Account::LEN];
    Account::pack(account, &mut data).unwrap();
    TokenAccount { owner: token_program(), data }
}

fn ledger() -> Ledger {
    Ledger::new(program(), token_program())
}

fn governance_of(creator: &Address, name: &str) -> Address {
    governance_address(creator, name, &program()).unwrap().0
}

fn proposal_of(governance: &Address, index: u64) -> Address {
    proposal_address(governance, index, &program()).unwrap().0
}

fn vote_of(voter: &Address, proposal: &Address) -> Address {
    vote_address(voter, proposal, &program()).unwrap().0
}

/// A ledger with Alice's governance "DAO1" and its first proposal, "Fund X".
fn with_proposal() -> (Ledger, Address, Address) {
    let mut ledger = ledger();
    assert_eq!(ledger.open_governance(&alice(), String::from("DAO1")), Ok(()));
    let governance = governance_of(&alice(), "DAO1");
    assert_eq!(ledger.open_proposal(&alice(), &governance, String::from("Fund X")), Ok(()));
    let proposal = proposal_of(&governance, 0);
    (ledger, governance, proposal)
}

fn fund_x(yes_votes: u64, no_votes: u64, closed: bool) -> Proposal {
    Proposal { metadata: String::from("Fund X"), authority: alice(), yes_votes, no_votes, closed }
}

#[test]
fn a_new_ledger_is_empty() {
    let ledger = ledger();
    assert_eq!(ledger.program_id(), program());
    assert_eq!(ledger.token_program(), token_program());
    assert!(!ledger.contains(&governance_of(&alice(), "DAO1")));
    assert_eq!(ledger.governance(&key(1)), Err(ErrorCode::RecordNotFound));
    assert_eq!(ledger.proposal(&key(1)), Err(ErrorCode::RecordNotFound));
    assert_eq!(ledger.vote(&key(1)), Err(ErrorCode::RecordNotFound));
}

#[test]
fn end_to_end() {
    let mut ledger = ledger();
    assert_eq!(ledger.open_governance(&alice(), String::from("DAO1")), Ok(()));
    let governance = governance_of(&alice(), "DAO1");
    assert_eq!(ledger.open_proposal(&alice(), &governance, String::from("Fund X")), Ok(()));
    let proposal = proposal_of(&governance, 0);
    assert_eq!(ledger.cast_vote(&bob(), &proposal, 1, balance(&bob(), 100)), Ok(()));
    assert_eq!(ledger.proposal(&proposal), Ok(fund_x(10, 0, false)));
    assert_eq!(ledger.close_proposal(&bob(), &proposal), Err(ErrorCode::Unauthorized));
    assert_eq!(ledger.proposal(&proposal), Ok(fund_x(10, 0, false)));
    assert_eq!(ledger.close_proposal(&alice(), &proposal), Ok(()));
    assert_eq!(ledger.proposal(&proposal), Ok(fund_x(10, 0, true)));
}

#[test]
fn open_governance_creates_the_record_at_its_derived_address() {
    let mut ledger = ledger();
    assert_eq!(ledger.open_governance(&alice(), String::from("DAO1")), Ok(()));
    let (address, bump) = governance_address(&alice(), "DAO1", &program()).unwrap();
    assert!(ledger.contains(&address));
    assert_eq!(
        ledger.governance(&address),
        Ok(Governance { name: String::from("DAO1"), authority: alice(), proposal_count: 0, bump })
    );
    assert_eq!(ledger.proposal(&address), Err(ErrorCode::RecordNotFound));
    assert_eq!(ledger.vote(&address), Err(ErrorCode::RecordNotFound));
}

#[test]
fn open_governance_is_once_per_creator_and_name() {
    let mut ledger = ledger();
    assert_eq!(ledger.open_governance(&alice(), String::from("DAO1")), Ok(()));
    assert_eq!(
        ledger.open_governance(&alice(), String::from("DAO1")),
        Err(ErrorCode::RecordAlreadyExists)
    );
    assert_eq!(ledger.open_governance(&alice(), String::from("DAO2")), Ok(()));
    assert_eq!(ledger.open_governance(&bob(), String::from("DAO1")), Ok(()));
    assert_eq!(ledger.governance(&governance_of(&bob(), "DAO1")).unwrap().authority, bob());
    assert_eq!(ledger.governance(&governance_of(&alice(), "DAO1")).unwrap().authority, alice());
}

#[test]
fn open_governance_rejects_a_name_without_an_address() {
    let mut ledger = ledger();
    assert_eq!(
        ledger.open_governance(&alice(), "x".repeat(33)),
        Err(ErrorCode::AddressSpaceExhausted)
    );
    assert_eq!(ledger.open_governance(&alice(), "x".repeat(32)), Ok(()));
}

#[test]
fn open_proposal_creates_an_open_proposal_with_empty_tallies() {
    let (ledger, governance, proposal) = with_proposal();
    assert_eq!(ledger.proposal(&proposal), Ok(fund_x(0, 0, false)));
    assert_eq!(ledger.governance(&governance).unwrap().proposal_count, 1);
    assert_eq!(ledger.governance(&proposal), Err(ErrorCode::RecordNotFound));
}

#[test]
fn open_proposal_counts_from_zero() {
    let mut ledger = ledger();
    assert_eq!(ledger.open_governance(&alice(), String::from("DAO1")), Ok(()));
    let governance = governance_of(&alice(), "DAO1");
    let before = ledger.governance(&governance).unwrap();
    let n = 12u64;
    for i in 0..n {
        assert_eq!(ledger.governance(&governance).unwrap().proposal_count, i);
        assert!(!ledger.contains(&proposal_of(&governance, i)));
        assert_eq!(ledger.open_proposal(&alice(), &governance, format!("proposal {i}")), Ok(()));
    }
    let after = ledger.governance(&governance).unwrap();
    assert_eq!(after.proposal_count, n);
    assert_eq!(after.name, before.name);
    assert_eq!(after.authority, before.authority);
    assert_eq!(after.bump, before.bump);
    for i in 0..n {
        assert_eq!(
            ledger.proposal(&proposal_of(&governance, i)),
            Ok(Proposal {
                metadata: format!("proposal {i}"),
                authority: alice(),
                yes_votes: 0,
                no_votes: 0,
                closed: false,
            })
        );
    }
    assert!(!ledger.contains(&proposal_of(&governance, n)));
}

#[test]
fn open_proposal_needs_the_governance() {
    let mut ledger = ledger();
    let governance = governance_of(&alice(), "DAO1");
    assert_eq!(
        ledger.open_proposal(&alice(), &governance, String::from("Fund X")),
        Err(ErrorCode::RecordNotFound)
    );
    assert!(!ledger.contains(&proposal_of(&governance, 0)));
    let (mut ledger, _, proposal) = with_proposal();
    // a proposal is no governance
    assert_eq!(
        ledger.open_proposal(&alice(), &proposal, String::from("Fund Y")),
        Err(ErrorCode::RecordNotFound)
    );
}

#[test]
fn open_proposal_needs_the_creators_own_governance() {
    let (mut ledger, governance, _) = with_proposal();
    assert_eq!(
        ledger.open_proposal(&bob(), &governance, String::from("Fund Y")),
        Err(ErrorCode::RecordNotFound)
    );
    assert_eq!(ledger.governance(&governance).unwrap().proposal_count, 1);
    assert!(!ledger.contains(&proposal_of(&governance, 1)));
}

#[test]
fn proposals_of_two_governances_are_counted_apart() {
    let mut ledger = ledger();
    assert_eq!(ledger.open_governance(&alice(), String::from("DAO1")), Ok(()));
    assert_eq!(ledger.open_governance(&bob(), String::from("DAO1")), Ok(()));
    let hers = governance_of(&alice(), "DAO1");
    let his = governance_of(&bob(), "DAO1");
    assert_eq!(ledger.open_proposal(&alice(), &hers, String::from("a0")), Ok(()));
    assert_eq!(ledger.open_proposal(&alice(), &hers, String::from("a1")), Ok(()));
    assert_eq!(ledger.open_proposal(&bob(), &his, String::from("b0")), Ok(()));
    assert_eq!(ledger.governance(&hers).unwrap().proposal_count, 2);
    assert_eq!(ledger.governance(&his).unwrap().proposal_count, 1);
    assert_eq!(ledger.proposal(&proposal_of(&his, 0)).unwrap().metadata, "b0");
    assert_eq!(ledger.proposal(&proposal_of(&his, 0)).unwrap().authority, bob());
    assert_eq!(ledger.proposal(&proposal_of(&hers, 1)).unwrap().metadata, "a1");
}

#[test]
fn cast_vote_records_the_vote_and_raises_the_tally() {
    let (mut ledger, _, proposal) = with_proposal();
    assert_eq!(ledger.cast_vote(&bob(), &proposal, 1, balance(&bob(), 100)), Ok(()));
    assert_eq!(
        ledger.vote(&vote_of(&bob(), &proposal)),
        Ok(Vote { vote_type: VoteType::Yes, authority: bob(), credits: 10 })
    );
    assert_eq!(ledger.cast_vote(&alice(), &proposal, 0, balance(&alice(), 50)), Ok(()));
    assert_eq!(
        ledger.vote(&vote_of(&alice(), &proposal)),
        Ok(Vote { vote_type: VoteType::No, authority: alice(), credits: 7 })
    );
    assert_eq!(ledger.proposal(&proposal), Ok(fund_x(10, 7, false)));
}

#[test]
fn votes_of_different_voters_all_count() {
    let (mut ledger, _, proposal) = with_proposal();
    let mut expected = 0u64;
    for i in 1..=20u8 {
        let voter = key(i);
        let amount = (i as u64) * (i as u64);
        assert_eq!(ledger.cast_vote(&voter, &proposal, 1, balance(&voter, amount)), Ok(()));
        expected += i as u64;
        assert_eq!(ledger.proposal(&proposal).unwrap().yes_votes, expected);
    }
    assert_eq!(ledger.proposal(&proposal), Ok(fund_x(210, 0, false)));
}

#[test]
fn a_vote_of_zero_balance_counts_for_nothing_but_is_cast() {
    let (mut ledger, _, proposal) = with_proposal();
    assert_eq!(ledger.cast_vote(&bob(), &proposal, 1, balance(&bob(), 0)), Ok(()));
    assert_eq!(ledger.proposal(&proposal), Ok(fund_x(0, 0, false)));
    assert_eq!(
        ledger.vote(&vote_of(&bob(), &proposal)),
        Ok(Vote { vote_type: VoteType::Yes, authority: bob(), credits: 0 })
    );
    assert_eq!(
        ledger.cast_vote(&bob(), &proposal, 1, balance(&bob(), 100)),
        Err(ErrorCode::DuplicateVote)
    );
}

#[test]
fn a_voter_votes_once_on_a_proposal() {
    let (mut ledger, governance, proposal) = with_proposal();
    assert_eq!(ledger.cast_vote(&bob(), &proposal, 1, balance(&bob(), 100)), Ok(()));
    for (vote_type, amount) in [(1u8, 100u64), (0, 100), (1, 400), (7, 100)] {
        assert_eq!(
            ledger.cast_vote(&bob(), &proposal, vote_type, balance(&bob(), amount)),
            Err(ErrorCode::DuplicateVote)
        );
    }
    assert_eq!(
        ledger.cast_vote(&bob(), &proposal, 1, balance(&alice(), 100)),
        Err(ErrorCode::DuplicateVote)
    );
    assert_eq!(ledger.proposal(&proposal), Ok(fund_x(10, 0, false)));
    assert_eq!(
        ledger.vote(&vote_of(&bob(), &proposal)),
        Ok(Vote { vote_type: VoteType::Yes, authority: bob(), credits: 10 })
    );
    // the same voter may vote on another proposal
    assert_eq!(ledger.open_proposal(&alice(), &governance, String::from("Fund Y")), Ok(()));
    let other = proposal_of(&governance, 1);
    assert_eq!(ledger.cast_vote(&bob(), &other, 0, balance(&bob(), 100)), Ok(()));
    assert_eq!(ledger.proposal(&other).unwrap().no_votes, 10);
}

#[test]
fn cast_vote_needs_the_proposal() {
    let (mut ledger, governance, proposal) = with_proposal();
    assert_eq!(
        ledger.cast_vote(&bob(), &key(9), 1, balance(&bob(), 100)),
        Err(ErrorCode::RecordNotFound)
    );
    assert_eq!(
        ledger.cast_vote(&bob(), &governance, 1, balance(&bob(), 100)),
        Err(ErrorCode::RecordNotFound)
    );
    assert!(!ledger.contains(&vote_of(&bob(), &key(9))));
    assert!(!ledger.contains(&vote_of(&bob(), &governance)));
    assert_eq!(ledger.proposal(&proposal), Ok(fund_x(0, 0, false)));
}

#[test]
fn a_vote_of_unknown_direction_writes_nothing() {
    let (mut ledger, _, proposal) = with_proposal();
    assert_eq!(
        ledger.cast_vote(&bob(), &proposal, 2, balance(&bob(), 100)),
        Err(ErrorCode::InvalidVoteType)
    );
    assert!(!ledger.contains(&vote_of(&bob(), &proposal)));
    assert_eq!(ledger.proposal(&proposal), Ok(fund_x(0, 0, false)));
    // nothing was written, so the voter can still vote
    assert_eq!(ledger.cast_vote(&bob(), &proposal, 1, balance(&bob(), 100)), Ok(()));
}

#[test]
fn a_vote_without_a_balance_of_the_voter_writes_nothing() {
    let (mut ledger, _, proposal) = with_proposal();
    assert_eq!(
        ledger.cast_vote(&bob(), &proposal, 1, balance(&alice(), 100)),
        Err(ErrorCode::AssetAccountMismatch)
    );
    let mut foreign = balance(&bob(), 100);
    foreign.owner = key(0x55);
    assert_eq!(
        ledger.cast_vote(&bob(), &proposal, 1, foreign),
        Err(ErrorCode::AssetAccountMismatch)
    );
    let missing = TokenAccount { owner: token_program(), data: Vec::new() };
    assert_eq!(
        ledger.cast_vote(&bob(), &proposal, 1, missing),
        Err(ErrorCode::AssetAccountMismatch)
    );
    assert!(!ledger.contains(&vote_of(&bob(), &proposal)));
    assert_eq!(ledger.proposal(&proposal), Ok(fund_x(0, 0, false)));
}

#[test]
fn a_closed_proposal_takes_no_votes() {
    let (mut ledger, _, proposal) = with_proposal();
    assert_eq!(ledger.cast_vote(&bob(), &proposal, 1, balance(&bob(), 100)), Ok(()));
    assert_eq!(ledger.close_proposal(&alice(), &proposal), Ok(()));
    let carol = key(0xC0);
    // a fresh voter, the voter of before, a bad direction, a bad balance
    assert_eq!(
        ledger.cast_vote(&carol, &proposal, 1, balance(&carol, 100)),
        Err(ErrorCode::ProposalClosed)
    );
    assert_eq!(
        ledger.cast_vote(&bob(), &proposal, 1, balance(&bob(), 100)),
        Err(ErrorCode::ProposalClosed)
    );
    assert_eq!(
        ledger.cast_vote(&carol, &proposal, 5, balance(&carol, 100)),
        Err(ErrorCode::ProposalClosed)
    );
    assert_eq!(
        ledger.cast_vote(&carol, &proposal, 0, balance(&bob(), 100)),
        Err(ErrorCode::ProposalClosed)
    );
    assert_eq!(ledger.proposal(&proposal), Ok(fund_x(10, 0, true)));
    assert!(!ledger.contains(&vote_of(&carol, &proposal)));
}

#[test]
fn close_proposal_is_final() {
    let (mut ledger, _, proposal) = with_proposal();
    assert_eq!(ledger.cast_vote(&bob(), &proposal, 0, balance(&bob(), 16)), Ok(()));
    assert_eq!(ledger.close_proposal(&alice(), &proposal), Ok(()));
    for _ in 0..3 {
        assert_eq!(
            ledger.close_proposal(&alice(), &proposal),
            Err(ErrorCode::ProposalAlreadyClosed)
        );
        assert_eq!(ledger.proposal(&proposal), Ok(fund_x(0, 4, true)));
    }
}

#[test]
fn close_proposal_is_for_the_authority_alone() {
    let (mut ledger, _, proposal) = with_proposal();
    for caller in [bob(), key(0), key(0xA0), proposal] {
        assert_eq!(ledger.close_proposal(&caller, &proposal), Err(ErrorCode::Unauthorized));
        assert_eq!(ledger.proposal(&proposal), Ok(fund_x(0, 0, false)));
    }
    assert_eq!(ledger.close_proposal(&alice(), &proposal), Ok(()));
    assert_eq!(ledger.close_proposal(&bob(), &proposal), Err(ErrorCode::Unauthorized));
    assert_eq!(ledger.proposal(&proposal), Ok(fund_x(0, 0, true)));
}

#[test]
fn close_proposal_needs_the_proposal() {
    let (mut ledger, governance, _) = with_proposal();
    assert_eq!(ledger.close_proposal(&alice(), &key(9)), Err(ErrorCode::RecordNotFound));
    assert_eq!(ledger.close_proposal(&alice(), &governance), Err(ErrorCode::RecordNotFound));
    assert_eq!(ledger.governance(&governance).unwrap().proposal_count, 1);
}

#[test]
fn closing_one_proposal_leaves_the_others_open() {
    let (mut ledger, governance, first) = with_proposal();
    assert_eq!(ledger.open_proposal(&alice(), &governance, String::from("Fund Y")), Ok(()));
    let second = proposal_of(&governance, 1);
    assert_eq!(ledger.close_proposal(&alice(), &first), Ok(()));
    assert_eq!(ledger.cast_vote(&bob(), &second, 1, balance(&bob(), 9)), Ok(()));
    assert_eq!(ledger.proposal(&second).unwrap().yes_votes, 3);
    assert!(!ledger.proposal(&second).unwrap().closed);
    // proposals can still be opened after a closure
    assert_eq!(ledger.open_proposal(&alice(), &governance, String::from("Fund Z")), Ok(()));
    assert_eq!(ledger.governance(&governance).unwrap().proposal_count, 3);
}

#[test]
fn the_ledger_tests_whether_a_vote_has_room() {
    let (mut ledger, governance, proposal) = with_proposal();
    let account = balance(&bob(), 100);
    assert!(ledger.vote_has_room(&bob(), &proposal, 1, &account));
    assert!(ledger.vote_has_room(&bob(), &proposal, 0, &account));
    // where no proposal lives, no tally is raised
    assert!(ledger.vote_has_room(&bob(), &governance, 1, &account));
    assert!(ledger.vote_has_room(&bob(), &key(9), 1, &account));
    assert_eq!(ledger.cast_vote(&bob(), &proposal, 1, account), Ok(()));
    assert!(ledger.vote_has_room(&alice(), &proposal, 1, &balance(&alice(), u64::MAX)));
}
