//! Addresses of principals and records, and the deterministic derivation of a
//! record's address from a namespace tag and the identifiers it belongs to.

use vstd::prelude::*;
use vstd::bytes::{spec_u64_to_le_bytes, u64_to_le_bytes};
use vstd::slice::slice_to_vec;
use anchor_lang::prelude::Pubkey;
use crate::error::ErrorCode;

verus! {

/// A 32-byte identifier: a principal (creator, voter, authority), a program, or
/// the place where a record lives.
#[derive(Clone, Copy, Debug, Eq, Hash)]
pub struct Address {
    pub bytes: [u8; 32],
}

impl View for Address {
    type V = Seq<u8>;

    open spec fn view(&self) -> Seq<u8> {
        self.bytes@
    }
}

impl PartialEq for Address {
    fn eq(&self, other: &Address) -> (same: bool) {
        let mut i: usize = 0;
        while i < 32
            invariant
                i <= 32,
                forall|j: int| 0 <= j < i ==> self.bytes@[j] == other.bytes@[j],
            decreases 32 - i,
        {
            if self.bytes[i] != other.bytes[i] {
                return false;
            }
            i += 1;
        }
        assert(self.bytes@ =~= other.bytes@);
        true
    }
}

impl vstd::std_specs::cmp::PartialEqSpecImpl for Address {
    open spec fn obeys_eq_spec() -> bool {
        true
    }

    open spec fn eq_spec(&self, other: &Address) -> bool {
        self@ == other@
    }
}

impl Address {
    /// The address made of the given bytes.
    pub fn new(bytes: [u8; 32]) -> (address: Address)
        ensures
            address@ == bytes@,
            address.bytes == bytes,
    {
        Address { bytes }
    }

    /// The bytes of this address, as a seed for a derivation.
    pub fn to_vec(&self) -> (bytes: Vec<u8>)
        ensures
            bytes@ == self@,
    {
        let mut bytes: Vec<u8> = Vec::new();
        let mut i: usize = 0;
        while i < 32
            invariant
                i <= 32,
                bytes@ == self.bytes@.subrange(0, i as int),
            decreases 32 - i,
        {
            bytes.push(self.bytes[i]);
            assert(self.bytes@.subrange(0, i + 1) =~= self.bytes@.subrange(0, i as int).push(
                self.bytes@[i as int],
            ));
            i += 1;
        }
        assert(self.bytes@.subrange(0, 32) =~= self.bytes@);
        bytes
    }
}

/// What `Pubkey::try_find_program_address` yields for a list of seeds and a
/// program: the derived address with the bump seed that produced it, or nothing
/// when no bump seed gives a usable address.
pub uninterp spec fn program_address(seeds: Seq<Seq<u8>>, program_id: Seq<u8>) -> Option<
    (Seq<u8>, u8),
>;

/// The longest seed that a derivation takes, in bytes.
pub const MAX_SEED_LEN: usize = 32;

/// The number of seeds that a derivation cannot take: with the bump seed they
/// would be more than sixteen.
pub const MAX_SEEDS: usize = 16;

/// The seeds are such as a derivation takes: fewer than 16, of at most 32 bytes each.
pub open spec fn seeds_allowed(seeds: Seq<Seq<u8>>) -> bool {
    &&& seeds.len() < MAX_SEEDS
    &&& forall|i: int| 0 <= i < seeds.len() ==> (#[trigger] seeds[i]).len() <= MAX_SEED_LEN
}

/// The views of a list of seeds.
pub open spec fn seeds_view(seeds: Seq<Vec<u8>>) -> Seq<Seq<u8>> {
    seeds.map_values(|seed: Vec<u8>| seed@)
}

/// Calls `Pubkey::try_find_program_address` of solana-pubkey (as re-exported by
/// anchor-lang) on the seeds and the program. Trusted: the result is
/// `program_address` of the same seeds and program, a pure function of them (a
/// SHA-256 hash of seeds, bump, program and a marker, retried over the bump
/// seeds from 255 down until the hash is off the ed25519 curve); and the call
/// returns nothing, without a search, when there are 16 seeds or more or when a
/// seed is longer than 32 bytes.
#[verifier::external_body]
fn try_find_program_address(seeds: &Vec<Vec<u8>>, program_id: &Address) -> (found: Option<
    (Address, u8),
>)
    ensures
        found matches Some((address, bump)) ==> program_address(seeds_view(seeds@), program_id@)
            == Some((address@, bump)),
        found is None ==> program_address(seeds_view(seeds@), program_id@) is None,
        !seeds_allowed(seeds_view(seeds@)) ==> found is None,
{
    let slices: Vec<&[u8]> = seeds.iter().map(|seed| seed.as_slice()).collect();
    let program = Pubkey::new_from_array(program_id.bytes);
    match Pubkey::try_find_program_address(&slices, &program) {
        Some((key, bump)) => Some((Address { bytes: key.to_bytes() }, bump)),
        None => None,
    }
}

/// The namespace tag of governance records: the bytes of "gov".
pub open spec fn governance_tag() -> Seq<u8> {
    seq![0x67u8, 0x6fu8, 0x76u8]
}

/// The namespace tag of proposal records: the bytes of "proposal".
pub open spec fn proposal_tag() -> Seq<u8> {
    seq![0x70u8, 0x72u8, 0x6fu8, 0x70u8, 0x6fu8, 0x73u8, 0x61u8, 0x6cu8]
}

/// The namespace tag of vote records: the bytes of "vote".
pub open spec fn vote_tag() -> Seq<u8> {
    seq![0x76u8, 0x6fu8, 0x74u8, 0x65u8]
}

/// The seeds of a governance: its tag, its creator, and the UTF-8 bytes of its name.
pub open spec fn governance_seeds(creator: Seq<u8>, name: Seq<char>) -> Seq<Seq<u8>> {
    seq![governance_tag(), creator, vstd::utf8::encode_utf8(name)]
}

/// The seeds of a proposal: its tag, the address of its governance, and the
/// governance's proposal counter as eight little-endian bytes.
pub open spec fn proposal_seeds(governance: Seq<u8>, index: u64) -> Seq<Seq<u8>> {
    seq![proposal_tag(), governance, spec_u64_to_le_bytes(index)]
}

/// The seeds of a vote: its tag, the voter, and the address of the proposal.
pub open spec fn vote_seeds(voter: Seq<u8>, proposal: Seq<u8>) -> Seq<Seq<u8>> {
    seq![vote_tag(), voter, proposal]
}

/// The outcome of a derivation: the address and its bump seed, or
/// `AddressSpaceExhausted` when no bump seed gives a usable address, as is the
/// case whenever the seeds are not such as a derivation takes.
pub open spec fn derived(seeds: Seq<Seq<u8>>, program_id: Seq<u8>) -> Result<(Seq<u8>, u8), ErrorCode> {
    if !seeds_allowed(seeds) {
        Err(ErrorCode::AddressSpaceExhausted)
    } else {
        match program_address(seeds, program_id) {
            Some(found) => Ok(found),
            None => Err(ErrorCode::AddressSpaceExhausted),
        }
    }
}

/// The view of a derivation's outcome.
pub open spec fn derivation_view(outcome: Result<(Address, u8), ErrorCode>) -> Result<
    (Seq<u8>, u8),
    ErrorCode,
> {
    match outcome {
        Ok((address, bump)) => Ok((address@, bump)),
        Err(e) => Err(e),
    }
}

/// Derives the address that the seeds give under the program, with the bump
/// seed that produced it. The same seeds and program always give the same
/// address. Fails with `AddressSpaceExhausted` when no bump seed gives a usable
/// address, as is the case whenever there are 16 seeds or more, or a seed is
/// longer than 32 bytes.
pub fn derive_address(seeds: &Vec<Vec<u8>>, program_id: &Address) -> (outcome: Result<
    (Address, u8),
    ErrorCode,
>)
    ensures
        derivation_view(outcome) == derived(seeds_view(seeds@), program_id@),
{
    match try_find_program_address(seeds, program_id) {
        Some(found) => Ok(found),
        None => Err(ErrorCode::AddressSpaceExhausted),
    }
}

/// Derives the address of a record from its namespace tag and the two
/// identifiers it belongs to.
fn derive(tag: Vec<u8>, first: Vec<u8>, second: Vec<u8>, program_id: &Address) -> (outcome: Result<
    (Address, u8),
    ErrorCode,
>)
    ensures
        derivation_view(outcome) == derived(seq![tag@, first@, second@], program_id@),
{
    let mut seeds: Vec<Vec<u8>> = Vec::new();
    seeds.push(tag);
    seeds.push(first);
    seeds.push(second);
    assert(seeds_view(seeds@) =~= seq![tag@, first@, second@]);
    derive_address(&seeds, program_id)
}

/// The address of the governance that `creator` opened under `name`, with its
/// bump seed. The same creator and name always give the same address. Fails
/// with `AddressSpaceExhausted` when the derivation finds no usable address,
/// which is certain when the name is longer than 32 bytes.
pub fn governance_address(creator: &Address, name: &str, program_id: &Address) -> (outcome: Result<
    (Address, u8),
    ErrorCode,
>)
    ensures
        derivation_view(outcome) == derived(governance_seeds(creator@, name@), program_id@),
{
    let mut tag: Vec<u8> = Vec::new();
    tag.push(0x67);
    tag.push(0x6f);
    tag.push(0x76);
    assert(tag@ =~= governance_tag());
    derive(tag, creator.to_vec(), slice_to_vec(name.as_bytes()), program_id)
}

/// The address of the proposal that a governance opens when its counter stands
/// at `index`, with its bump seed. Fails with `AddressSpaceExhausted` when the
/// derivation finds no usable address.
pub fn proposal_address(governance: &Address, index: u64, program_id: &Address) -> (outcome: Result<
    (Address, u8),
    ErrorCode,
>)
    ensures
        derivation_view(outcome) == derived(proposal_seeds(governance@, index), program_id@),
{
    let mut tag: Vec<u8> = Vec::new();
    tag.push(0x70);
    tag.push(0x72);
    tag.push(0x6f);
    tag.push(0x70);
    tag.push(0x6f);
    tag.push(0x73);
    tag.push(0x61);
    tag.push(0x6c);
    assert(tag@ =~= proposal_tag());
    derive(tag, governance.to_vec(), u64_to_le_bytes(index), program_id)
}

/// The address of the vote of `voter` on `proposal`, with its bump seed: one
/// address for each pair of voter and proposal. Fails with
/// `AddressSpaceExhausted` when the derivation finds no usable address.
pub fn vote_address(voter: &Address, proposal: &Address, program_id: &Address) -> (outcome: Result<
    (Address, u8),
    ErrorCode,
>)
    ensures
        derivation_view(outcome) == derived(vote_seeds(voter@, proposal@), program_id@),
{
    let mut tag: Vec<u8> = Vec::new();
    tag.push(0x76);
    tag.push(0x6f);
    tag.push(0x74);
    tag.push(0x65);
    assert(tag@ =~= vote_tag());
    derive(tag, voter.to_vec(), proposal.to_vec(), program_id)
}

} // verus!
