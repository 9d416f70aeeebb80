//! Ledger addresses and their deterministic derivation.
//!
//! An address is 32 bytes. A record of this program lives at an address that
//! is derived from a namespace tag and the record's key fields; the derivation
//! also yields a one-byte salt (the "bump") that is stored in the record.

use vstd::prelude::*;
use vstd::bytes::spec_u64_to_le_bytes;
use vstd::bytes::spec_u64_to_le_bytes_open;
use vstd::bytes::spec_u64_to_le_bytes_to_open;
use solana_program::pubkey::Pubkey;

verus! {

/// A 32-byte ledger address.
#[derive(Clone, Copy, Debug, PartialEq, Eq, Hash)]
pub struct Address {
    pub bytes: [u8; 32],
}

impl View for Address {
    type V = Seq<u8>;

    open spec fn view(&self) -> Seq<u8> {
        self.bytes@
    }
}

/// Two addresses with the same bytes are the same address.
pub proof fn lemma_address_by_bytes(a: Address, b: Address)
    ensures
        a@ == b@ <==> a == b,
        a@.len() == 32,
{
    broadcast use vstd::array::group_array_axioms;

    if a@ == b@ {
        assert forall|i: int| 0 <= i < 32 implies a.bytes[i] == b.bytes[i] by {
            assert(a.bytes[i] == a@[i]);
            assert(b.bytes[i] == b@[i]);
        }
        assert(a.bytes =~= b.bytes);
    }
}

impl Address {
    /// The address with the given bytes.
    pub fn from_bytes(bytes: [u8; 32]) -> (a: Address)
        ensures
            a.bytes == bytes,
    {
        Address { bytes }
    }

    /// Byte-wise comparison.
    pub fn same(&self, other: &Address) -> (r: bool)
        ensures
            r == (*self == *other),
    {
        let mut i: usize = 0;
        while i < 32
            invariant
                i <= 32,
                forall|j: int| 0 <= j < i ==> self.bytes[j] == other.bytes[j],
            decreases 32 - i,
        {
            if self.bytes[i] != other.bytes[i] {
                return false;
            }
            i += 1;
        }
        proof {
            broadcast use vstd::array::group_array_axioms;

            assert(self.bytes =~= other.bytes);
        }
        true
    }

    /// The address as an owned byte string, as it enters a seed list.
    pub fn to_vec(&self) -> (v: Vec<u8>)
        ensures
            v@ == self@,
    {
        let mut v: Vec<u8> = Vec::new();
        let mut i: usize = 0;
        while i < 32
            invariant
                i <= 32,
                v@.len() == i,
                forall|j: int| 0 <= j < i ==> v@[j] == self.bytes[j],
            decreases 32 - i,
        {
            v.push(self.bytes[i]);
            i += 1;
        }
        proof {
            broadcast use vstd::array::group_array_axioms;

            assert(v@ =~= self@);
        }
        v
    }

    /// The address in its textual form.
    pub fn to_text(&self) -> (s: String)
        ensures
            s@ == base58_text(self@),
    {
        pubkey_text(self)
    }
}

/// An address together with the salt that its derivation produced.
#[derive(Clone, Copy, Debug, PartialEq, Eq)]
pub struct Derived {
    pub address: Address,
    pub bump: u8,
}

/// The address and salt that the ledger derives for a seed list under a
/// program, or `None` when the seed list has no derived address.
pub uninterp spec fn derived_address(seeds: Seq<Seq<u8>>, program: Seq<u8>) -> Option<(Seq<u8>, u8)>;

/// The base-58 text of a byte string.
pub uninterp spec fn base58_text(bytes: Seq<u8>) -> Seq<char>;

/// The byte strings of a seed list.
pub open spec fn seed_list(seeds: Seq<Vec<u8>>) -> Seq<Seq<u8>> {
    seeds.map_values(|s: Vec<u8>| s@)
}

/// The address with the given bytes.
pub open spec fn address_of(bytes: Seq<u8>) -> Address {
    Address { bytes: choose|b: [u8; 32]| b@ == bytes }
}

/// What the ledger derives for `seeds` under `program`: an address and a
/// salt, or nothing.
pub open spec fn derivation(seeds: Seq<Seq<u8>>, program: Address) -> Option<Derived> {
    match derived_address(seeds, program@) {
        Some((bytes, bump)) => Some(Derived { address: address_of(bytes), bump }),
        None => None,
    }
}

/// An address is determined by its bytes.
pub proof fn lemma_address_of(a: Address)
    ensures
        address_of(a@) == a,
{
    lemma_address_by_bytes(address_of(a@), a);
}

/// Calls `Pubkey::try_find_program_address` of `solana_program`. The result
/// is a function of the seeds and the program address alone; the contract
/// gives that function the name `derived_address`.
#[verifier::external_body]
fn find_program_address(seeds: &Vec<Vec<u8>>, program: &Address) -> (d: Option<Derived>)
    ensures
        d matches Some(found) ==> derived_address(seed_list(seeds@), program@) == Some(
            (found.address@, found.bump),
        ),
        d is None ==> derived_address(seed_list(seeds@), program@) is None,
{
    let slices: Vec<&[u8]> = seeds.iter().map(|s| s.as_slice()).collect();
    let found = Pubkey::try_find_program_address(&slices, &Pubkey::new_from_array(program.bytes));
    found.map(|(key, bump)| Derived { address: Address { bytes: key.to_bytes() }, bump })
}

/// Calls the `Display` implementation of `solana_program`'s `Pubkey`, which
/// writes the base-58 encoding of the 32 bytes.
#[verifier::external_body]
fn pubkey_text(address: &Address) -> (s: String)
    ensures
        s@ == base58_text(address@),
{
    Pubkey::new_from_array(address.bytes).to_string()
}

/// Derives the address and salt of a seed list under `program`.
pub fn derive(seeds: &Vec<Vec<u8>>, program: &Address) -> (d: Option<Derived>)
    ensures
        d == derivation(seed_list(seeds@), *program),
{
    let d = find_program_address(seeds, program);
    proof {
        if let Some(found) = d {
            lemma_address_of(found.address);
        }
    }
    d
}

/// Namespace tag of the identifier counter: the ASCII text `identifier`.
pub open spec fn identifier_tag() -> Seq<u8> {
    seq![105u8, 100u8, 101u8, 110u8, 116u8, 105u8, 102u8, 105u8, 101u8, 114u8]
}

/// Namespace tag of stake pools: the ASCII text `stake-pool`.
pub open spec fn stake_pool_tag() -> Seq<u8> {
    seq![115u8, 116u8, 97u8, 107u8, 101u8, 45u8, 112u8, 111u8, 111u8, 108u8]
}

/// Namespace tag of stake entries: the ASCII text `stake-entry`.
pub open spec fn stake_entry_tag() -> Seq<u8> {
    seq![115u8, 116u8, 97u8, 107u8, 101u8, 45u8, 101u8, 110u8, 116u8, 114u8, 121u8]
}

/// Seeds of the identifier counter.
pub open spec fn identifier_seeds() -> Seq<Seq<u8>> {
    seq![identifier_tag()]
}

/// Seeds of the pool with the given sequence number.
pub open spec fn stake_pool_seeds(identifier: u64) -> Seq<Seq<u8>> {
    seq![stake_pool_tag(), spec_u64_to_le_bytes(identifier)]
}

/// Seeds of the entry for an original asset under a pool.
pub open spec fn stake_entry_seeds(pool: Address, original_mint: Address) -> Seq<Seq<u8>> {
    seq![stake_entry_tag(), pool@, original_mint@]
}

/// Seeds of the canonical holding account of `owner` for tokens of `mint`.
pub open spec fn holding_seeds(owner: Address, token_program: Address, mint: Address) -> Seq<Seq<u8>> {
    seq![owner@, token_program@, mint@]
}

/// Seeds with which a pool signs on its own behalf: its derivation seeds
/// followed by its salt.
pub open spec fn stake_pool_signer_seeds(identifier: u64, bump: u8) -> Seq<Seq<u8>> {
    stake_pool_seeds(identifier).push(seq![bump])
}

pub fn identifier_tag_bytes() -> (v: Vec<u8>)
    ensures
        v@ == identifier_tag(),
{
    let v: Vec<u8> = vec![105u8, 100u8, 101u8, 110u8, 116u8, 105u8, 102u8, 105u8, 101u8, 114u8];
    assert(v@ =~= identifier_tag());
    v
}

pub fn stake_pool_tag_bytes() -> (v: Vec<u8>)
    ensures
        v@ == stake_pool_tag(),
{
    let v: Vec<u8> = vec![115u8, 116u8, 97u8, 107u8, 101u8, 45u8, 112u8, 111u8, 111u8, 108u8];
    assert(v@ =~= stake_pool_tag());
    v
}

pub fn stake_entry_tag_bytes() -> (v: Vec<u8>)
    ensures
        v@ == stake_entry_tag(),
{
    let v: Vec<u8> = vec![115u8, 116u8, 97u8, 107u8, 101u8, 45u8, 101u8, 110u8, 116u8, 114u8, 121u8];
    assert(v@ =~= stake_entry_tag());
    v
}

/// The eight bytes of `x`, least significant first.
pub fn u64_le_bytes(x: u64) -> (v: Vec<u8>)
    ensures
        v@ == spec_u64_to_le_bytes(x),
{
    let v: Vec<u8> = vec![
        (x & 0xff) as u8,
        ((x >> 8) & 0xff) as u8,
        ((x >> 16) & 0xff) as u8,
        ((x >> 24) & 0xff) as u8,
        ((x >> 32) & 0xff) as u8,
        ((x >> 40) & 0xff) as u8,
        ((x >> 48) & 0xff) as u8,
        ((x >> 56) & 0xff) as u8,
    ];
    proof {
        spec_u64_to_le_bytes_to_open(x);
        assert(v@ =~= spec_u64_to_le_bytes_open(x));
    }
    v
}

/// Derives the address of the identifier counter of `program`.
pub fn identifier_address(program: &Address) -> (d: Option<Derived>)
    ensures
        d == derivation(identifier_seeds(), *program),
{
    let mut seeds: Vec<Vec<u8>> = Vec::new();
    seeds.push(identifier_tag_bytes());
    assert(seed_list(seeds@) =~= identifier_seeds());
    derive(&seeds, program)
}

/// Derives the address of the pool with sequence number `identifier`.
pub fn stake_pool_address(program: &Address, identifier: u64) -> (d: Option<Derived>)
    ensures
        d == derivation(stake_pool_seeds(identifier), *program),
{
    let mut seeds: Vec<Vec<u8>> = Vec::new();
    seeds.push(stake_pool_tag_bytes());
    seeds.push(u64_le_bytes(identifier));
    assert(seed_list(seeds@) =~= stake_pool_seeds(identifier));
    derive(&seeds, program)
}

/// Derives the address of the entry for `original_mint` under `pool`.
pub fn stake_entry_address(program: &Address, pool: &Address, original_mint: &Address) -> (d: Option<Derived>)
    ensures
        d == derivation(stake_entry_seeds(*pool, *original_mint), *program),
{
    let mut seeds: Vec<Vec<u8>> = Vec::new();
    seeds.push(stake_entry_tag_bytes());
    seeds.push(pool.to_vec());
    seeds.push(original_mint.to_vec());
    assert(seed_list(seeds@) =~= stake_entry_seeds(*pool, *original_mint));
    derive(&seeds, program)
}

/// Derives the canonical holding account of `owner` for tokens of `mint`,
/// in the namespace of the associated-account program.
pub fn holding_address(
    associated_program: &Address,
    token_program: &Address,
    owner: &Address,
    mint: &Address,
) -> (d: Option<Derived>)
    ensures
        d == derivation(holding_seeds(*owner, *token_program, *mint), *associated_program),
{
    let mut seeds: Vec<Vec<u8>> = Vec::new();
    seeds.push(owner.to_vec());
    seeds.push(token_program.to_vec());
    seeds.push(mint.to_vec());
    assert(seed_list(seeds@) =~= holding_seeds(*owner, *token_program, *mint));
    derive(&seeds, associated_program)
}

} // verus!
