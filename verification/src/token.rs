//! The balance that gives a vote its weight: a token account, as the ledger
//! presents it, and the rules under which its amount counts for a voter.

use vstd::prelude::*;
use vstd::bytes::spec_u64_from_le_bytes;
use anchor_lang::solana_program::program_error::ProgramError;
use anchor_lang::solana_program::program_pack::Pack;
use anchor_spl::token::spl_token::state::Account;
use crate::address::Address;
use crate::error::ErrorCode;

verus! {

/// The error type of solana-program-error, with which `Account::unpack`
/// fails. Nothing is claimed of it: a value is only carried from the call to
/// the place that maps it to `AssetAccountMismatch`.
#[verifier::external_type_specification]
#[verifier::external_body]
pub struct ExProgramError(ProgramError);

/// The length of a packed token account, in bytes.
pub const TOKEN_ACCOUNT_LEN: usize = 165;

/// A packed optional field starts with a four-byte tag that says whether a value follows.
pub open spec fn is_option_tag(tag: Seq<u8>) -> bool {
    tag == seq![0u8, 0u8, 0u8, 0u8] || tag == seq![1u8, 0u8, 0u8, 0u8]
}

/// The bytes are an initialized token account: 165 bytes, whose three optional
/// fields (delegate, native reserve, close authority) carry valid tags, and
/// whose state byte says initialized (1) or frozen (2).
pub open spec fn is_token_account(data: Seq<u8>) -> bool {
    &&& data.len() == TOKEN_ACCOUNT_LEN
    &&& is_option_tag(data.subrange(72, 76))
    &&& (data[108] == 1 || data[108] == 2)
    &&& is_option_tag(data.subrange(109, 113))
    &&& is_option_tag(data.subrange(129, 133))
}

/// The holder of a packed token account: bytes 32 to 63.
pub open spec fn token_holder(data: Seq<u8>) -> Seq<u8> {
    data.subrange(32, 64)
}

/// The amount of a packed token account: bytes 64 to 71, little-endian.
pub open spec fn token_amount(data: Seq<u8>) -> u64 {
    spec_u64_from_le_bytes(data.subrange(64, 72))
}

/// What the logic reads from an unpacked token account.
#[derive(Clone, Copy, Debug)]
pub struct TokenHolding {
    /// The principal that holds the tokens.
    pub holder: Address,
    /// How many tokens the account holds.
    pub amount: u64,
}

/// Calls `spl_token::state::Account::unpack` (the `Pack` impl of spl-token, as
/// re-exported by anchor-spl) on the account data.
/// Trusted: it succeeds exactly on the bytes of an initialized token account as
/// `is_token_account` describes them, and then yields the holder and the amount
/// that stand at their fixed offsets.
#[verifier::external_body]
fn unpack_token_account(data: &Vec<u8>) -> (unpacked: Result<TokenHolding, ProgramError>)
    ensures
        unpacked is Ok <==> is_token_account(data@),
        unpacked matches Ok(holding) ==> holding.holder@ == token_holder(data@) && holding.amount
            == token_amount(data@),
{
    match Account::unpack(data.as_slice()) {
        Ok(account) => Ok(
            TokenHolding { holder: Address { bytes: account.owner.to_bytes() }, amount: account.amount },
        ),
        Err(e) => Err(e),
    }
}

/// A token account as the ledger presents it: the program that owns it, and its data.
#[derive(Debug)]
pub struct TokenAccount {
    /// The program that owns the account.
    pub owner: Address,
    /// The packed account.
    pub data: Vec<u8>,
}

/// The mathematical view of a token account.
pub struct TokenAccountView {
    pub owner: Seq<u8>,
    pub data: Seq<u8>,
}

impl View for TokenAccount {
    type V = TokenAccountView;

    open spec fn view(&self) -> TokenAccountView {
        TokenAccountView { owner: self.owner@, data: self.data@ }
    }
}

impl Clone for TokenAccount {
    fn clone(&self) -> (copy: Self)
        ensures
            copy@ == self@,
    {
        TokenAccount { owner: self.owner, data: self.data.clone() }
    }
}

/// The balance that `account` proves for `holder` under `token_program`: the
/// amount of the account if the token program owns it, its data are an
/// initialized token account, and that account belongs to the holder;
/// `AssetAccountMismatch` otherwise.
pub open spec fn balance_held(account: TokenAccountView, holder: Seq<u8>, token_program: Seq<u8>) -> Result<
    u64,
    ErrorCode,
> {
    if account.owner == token_program && is_token_account(account.data) && token_holder(
        account.data,
    ) == holder {
        Ok(token_amount(account.data))
    } else {
        Err(ErrorCode::AssetAccountMismatch)
    }
}

/// Looks up the balance that `account` holds for `holder` under the designated
/// token program. Fails with `AssetAccountMismatch` if another program owns the
/// account, if its data are no initialized token account, or if it belongs to
/// someone else.
pub fn balance_of(account: &TokenAccount, holder: &Address, token_program: &Address) -> (balance:
    Result<u64, ErrorCode>)
    ensures
        balance == balance_held(account@, holder@, token_program@),
{
    if account.owner != *token_program {
        return Err(ErrorCode::AssetAccountMismatch);
    }
    match unpack_token_account(&account.data) {
        Ok(holding) => {
            if holding.holder != *holder {
                Err(ErrorCode::AssetAccountMismatch)
            } else {
                Ok(holding.amount)
            }
        },
        Err(_) => Err(ErrorCode::AssetAccountMismatch),
    }
}

} // verus!
