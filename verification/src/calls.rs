//! The calls that this program makes into collaborating programs.
//!
//! A call is described here and performed by whoever runs the operation. A
//! call that the pool must authorize carries the pool's signing proof in
//! place of a key.

use vstd::prelude::*;
use vstd::utf8::encode_utf8;
use crate::address::Address;
use crate::address::address_of;
use crate::address::seed_list;
use crate::address::stake_pool_signer_seeds;
use crate::address::stake_pool_tag_bytes;
use crate::address::u64_le_bytes;
use mpl_token_metadata::instruction::create_metadata_accounts_v2;
use mpl_token_metadata::state::Creator as Share;
use solana_program::program_pack::Pack;
use solana_program::pubkey::Pubkey;
use solana_program::system_instruction;
use spl_token::state::Mint;

verus! {

/// Bytes of a token-mint account.
pub const MINT_ACCOUNT_LEN: u64 = 82;

/// Reads `Mint::LEN` of `spl_token`, the packed size of a mint account,
/// which that crate fixes at 82 bytes.
#[verifier::external_body]
fn packed_mint_len() -> (n: usize)
    ensures
        n == MINT_ACCOUNT_LEN,
{
    Mint::LEN
}

/// The space to reserve for a new mint account.
pub fn mint_account_len() -> (n: u64)
    ensures
        n == MINT_ACCOUNT_LEN,
{
    packed_mint_len() as u64
}

/// A share of a token's proceeds.
#[derive(Clone, Copy, Debug, PartialEq, Eq)]
pub struct Creator {
    pub address: Address,
    pub verified: bool,
    pub share: u8,
}

/// The proof with which a pool signs on its own behalf: the key fields of
/// its derived address and the salt of the derivation.
#[derive(Clone, Copy, Debug, PartialEq, Eq)]
pub struct SigningProof {
    pub pool: Address,
    pub identifier: u64,
    pub bump: u8,
}

impl SigningProof {
    /// The seed list that opens the pool's address.
    pub open spec fn spec_seeds(&self) -> Seq<Seq<u8>> {
        stake_pool_signer_seeds(self.identifier, self.bump)
    }

    /// The seed list that opens the pool's address.
    pub fn signer_seeds(&self) -> (seeds: Vec<Vec<u8>>)
        ensures
            seed_list(seeds@) == self.spec_seeds(),
    {
        let mut seeds: Vec<Vec<u8>> = Vec::new();
        seeds.push(stake_pool_tag_bytes());
        seeds.push(u64_le_bytes(self.identifier));
        let mut salt: Vec<u8> = Vec::new();
        salt.push(self.bump);
        assert(salt@ =~= seq![self.bump]);
        seeds.push(salt);
        assert(seed_list(seeds@) =~= self.spec_seeds());
        seeds
    }
}

/// What the metadata of a token says.
#[derive(Clone, Debug, PartialEq, Eq)]
pub struct MetadataArgs {
    pub name: String,
    pub symbol: String,
    pub uri: String,
    pub creators: Vec<Creator>,
    pub seller_fee_basis_points: u16,
    pub is_mutable: bool,
}

/// The mathematical content of `MetadataArgs`.
pub struct MetadataArgsView {
    pub name: Seq<char>,
    pub symbol: Seq<char>,
    pub uri: Seq<char>,
    pub creators: Seq<Creator>,
    pub seller_fee_basis_points: u16,
    pub is_mutable: bool,
}

impl View for MetadataArgs {
    type V = MetadataArgsView;

    open spec fn view(&self) -> MetadataArgsView {
        MetadataArgsView {
            name: self.name@,
            symbol: self.symbol@,
            uri: self.uri@,
            creators: self.creators@,
            seller_fee_basis_points: self.seller_fee_basis_points,
            is_mutable: self.is_mutable,
        }
    }
}

/// An account that an instruction names, and how it takes part.
#[derive(Clone, Copy, Debug, PartialEq, Eq)]
pub struct AccountMeta {
    pub address: Address,
    pub is_signer: bool,
    pub is_writable: bool,
}

/// A call in the form in which the ledger carries it: the program called,
/// the accounts named, and the encoded arguments.
#[derive(Clone, Debug, PartialEq, Eq)]
pub struct Instruction {
    pub program: Address,
    pub accounts: Vec<AccountMeta>,
    pub data: Vec<u8>,
}

/// The mathematical content of an instruction.
pub struct InstructionView {
    pub program: Address,
    pub accounts: Seq<AccountMeta>,
    pub data: Seq<u8>,
}

impl View for Instruction {
    type V = InstructionView;

    open spec fn view(&self) -> InstructionView {
        InstructionView { program: self.program, accounts: self.accounts@, data: self.data@ }
    }
}

/// The address of the system program: thirty-two zero bytes.
pub open spec fn system_program() -> Address {
    address_of(Seq::new(32, |i: int| 0u8))
}

/// The encoded arguments of the system program's account creation.
pub uninterp spec fn create_account_data(lamports: u64, space: u64, owner: Seq<u8>) -> Seq<u8>;

/// The encoded arguments of the metadata program's metadata creation; a
/// creator is given as its address, whether it is verified, and its share.
pub uninterp spec fn create_metadata_data(
    name: Seq<char>,
    symbol: Seq<char>,
    uri: Seq<char>,
    creators: Seq<(Seq<u8>, bool, u8)>,
    seller_fee_basis_points: u16,
    is_mutable: bool,
) -> Seq<u8>;

/// The creators of a token as plain values.
pub open spec fn creator_list(creators: Seq<Creator>) -> Seq<(Seq<u8>, bool, u8)> {
    creators.map_values(|c: Creator| (c.address@, c.verified, c.share))
}

/// Whether the length of a text can be encoded: its UTF-8 form has at most
/// `u32::MAX` bytes.
pub open spec fn encodable(text: Seq<char>) -> bool {
    encode_utf8(text).len() <= u32::MAX
}

/// Whether the length of `text` can be encoded.
pub fn is_encodable(text: &str) -> (r: bool)
    ensures
        r == encodable(text@),
{
    text.as_bytes().len() <= 0xffff_ffff
}

/// The instruction that creates `account` with `space` bytes and `lamports`
/// for `owner`, paid for by `payer`.
pub open spec fn create_account_wire(
    payer: Address,
    account: Address,
    lamports: u64,
    space: u64,
    owner: Address,
) -> InstructionView {
    InstructionView {
        program: system_program(),
        accounts: seq![
            AccountMeta { address: payer, is_signer: true, is_writable: true },
            AccountMeta { address: account, is_signer: true, is_writable: true },
        ],
        data: create_account_data(lamports, space, owner@),
    }
}

/// The instruction that attaches `args` as metadata to `mint`.
pub open spec fn create_metadata_wire(
    program: Address,
    metadata: Address,
    mint: Address,
    mint_authority: Address,
    payer: Address,
    update_authority: Address,
    update_authority_is_signer: bool,
    args: MetadataArgsView,
) -> InstructionView {
    InstructionView {
        program,
        accounts: seq![
            AccountMeta { address: metadata, is_signer: false, is_writable: true },
            AccountMeta { address: mint, is_signer: false, is_writable: false },
            AccountMeta { address: mint_authority, is_signer: true, is_writable: false },
            AccountMeta { address: payer, is_signer: true, is_writable: true },
            AccountMeta {
                address: update_authority,
                is_signer: update_authority_is_signer,
                is_writable: false,
            },
            AccountMeta { address: system_program(), is_signer: false, is_writable: false },
        ],
        data: create_metadata_data(
            args.name,
            args.symbol,
            args.uri,
            creator_list(args.creators),
            args.seller_fee_basis_points,
            args.is_mutable,
        ),
    }
}

/// Calls `system_instruction::create_account` of `solana_program`. The
/// instruction goes to the system program and names the payer and the new
/// account, both signing and writable; its data is a function of the
/// amounts and the owner, which the contract names `create_account_data`.
#[verifier::external_body]
pub(crate) fn build_create_account(
    payer: &Address,
    account: &Address,
    lamports: u64,
    space: u64,
    owner: &Address,
) -> (ix: Instruction)
    ensures
        ix.program == system_program(),
        ix.accounts@ == seq![
            AccountMeta { address: *payer, is_signer: true, is_writable: true },
            AccountMeta { address: *account, is_signer: true, is_writable: true },
        ],
        ix.data@ == create_account_data(lamports, space, owner@),
{
    let k = |a: &Address| Pubkey::new_from_array(a.bytes);
    let built = system_instruction::create_account(&k(payer), &k(account), lamports, space, &k(owner));
    let metas = built.accounts.iter().map(|m| AccountMeta { address: Address { bytes: m.pubkey.to_bytes() }, is_signer: m.is_signer, is_writable: m.is_writable }).collect();
    Instruction { program: Address { bytes: built.program_id.to_bytes() }, accounts: metas, data: built.data }
}

/// Calls `create_metadata_accounts_v2` of `mpl_token_metadata`, without a
/// collection and without uses. The instruction goes to `program` and names
/// the metadata account (writable), the mint, the mint authority (signing),
/// the payer (signing, writable), the update authority and the system
/// program; its data is a function of the metadata, which the contract names
/// `create_metadata_data`. Lengths that do not fit into 32 bits, on which the
/// encoder fails, are left out.
#[verifier::external_body]
pub(crate) fn build_create_metadata(
    program: &Address,
    metadata: &Address,
    mint: &Address,
    mint_authority: &Address,
    payer: &Address,
    update_authority: &Address,
    update_authority_is_signer: bool,
    name: String,
    symbol: String,
    uri: String,
    creators: &Vec<Creator>,
    seller_fee_basis_points: u16,
    is_mutable: bool,
) -> (ix: Instruction)
    requires
        encodable(name@),
        encodable(symbol@),
        encodable(uri@),
        creators@.len() <= u32::MAX,
    ensures
        ix.program == *program,
        ix.accounts@ == seq![
            AccountMeta { address: *metadata, is_signer: false, is_writable: true },
            AccountMeta { address: *mint, is_signer: false, is_writable: false },
            AccountMeta { address: *mint_authority, is_signer: true, is_writable: false },
            AccountMeta { address: *payer, is_signer: true, is_writable: true },
            AccountMeta {
                address: *update_authority,
                is_signer: update_authority_is_signer,
                is_writable: false,
            },
            AccountMeta { address: system_program(), is_signer: false, is_writable: false },
        ],
        ix.data@ == create_metadata_data(
            name@,
            symbol@,
            uri@,
            creator_list(creators@),
            seller_fee_basis_points,
            is_mutable,
        ),
{
    let k = |a: &Address| Pubkey::new_from_array(a.bytes);
    let shares = creators.iter().map(|c| Share { address: k(&c.address), verified: c.verified, share: c.share }).collect();
    let built = create_metadata_accounts_v2(k(program), k(metadata), k(mint), k(mint_authority), k(payer), k(update_authority), name, symbol, uri, Some(shares), seller_fee_basis_points, update_authority_is_signer, is_mutable, None, None);
    let metas = built.accounts.iter().map(|m| AccountMeta { address: Address { bytes: m.pubkey.to_bytes() }, is_signer: m.is_signer, is_writable: m.is_writable }).collect();
    Instruction { program: Address { bytes: built.program_id.to_bytes() }, accounts: metas, data: built.data }
}

/// A call into a collaborating program. `program` is the program called.
#[derive(Clone, Debug, PartialEq, Eq)]
#[allow(inconsistent_fields)]
pub enum CrossCall {
    /// Allocate `account` with `space` bytes and `lamports`, owned by `owner`.
    /// `instruction` is the call as the system program takes it.
    CreateAccount {
        program: Address,
        payer: Address,
        account: Address,
        lamports: u64,
        space: u64,
        owner: Address,
        instruction: Instruction,
    },
    /// Make `mint` a token mint.
    InitializeMint {
        program: Address,
        mint: Address,
        decimals: u8,
        mint_authority: Address,
        freeze_authority: Option<Address>,
    },
    /// Create the canonical account in which `owner` holds tokens of `mint`.
    CreateHoldingAccount {
        program: Address,
        payer: Address,
        account: Address,
        owner: Address,
        mint: Address,
    },
    /// Attach metadata to `mint`. `instruction` is the call as the metadata
    /// program takes it.
    CreateMetadata {
        program: Address,
        metadata: Address,
        mint: Address,
        mint_authority: Address,
        payer: Address,
        update_authority: Address,
        update_authority_is_signer: bool,
        args: MetadataArgs,
        instruction: Instruction,
        signer: SigningProof,
    },
    /// Mint `amount` units of `mint` into `account`.
    MintTo {
        program: Address,
        mint: Address,
        account: Address,
        authority: Address,
        amount: u64,
        signer: SigningProof,
    },
    /// Hand the freezing and thawing of `mint` to the lock manager.
    CreateMintManager {
        program: Address,
        mint_manager: Address,
        mint: Address,
        freeze_authority: Address,
        payer: Address,
        signer: SigningProof,
    },
}

/// The mathematical content of a call.
#[allow(inconsistent_fields)]
pub enum CrossCallView {
    CreateAccount {
        program: Address,
        payer: Address,
        account: Address,
        lamports: u64,
        space: u64,
        owner: Address,
        instruction: InstructionView,
    },
    InitializeMint {
        program: Address,
        mint: Address,
        decimals: u8,
        mint_authority: Address,
        freeze_authority: Option<Address>,
    },
    CreateHoldingAccount {
        program: Address,
        payer: Address,
        account: Address,
        owner: Address,
        mint: Address,
    },
    CreateMetadata {
        program: Address,
        metadata: Address,
        mint: Address,
        mint_authority: Address,
        payer: Address,
        update_authority: Address,
        update_authority_is_signer: bool,
        args: MetadataArgsView,
        instruction: InstructionView,
        signer: SigningProof,
    },
    MintTo {
        program: Address,
        mint: Address,
        account: Address,
        authority: Address,
        amount: u64,
        signer: SigningProof,
    },
    CreateMintManager {
        program: Address,
        mint_manager: Address,
        mint: Address,
        freeze_authority: Address,
        payer: Address,
        signer: SigningProof,
    },
}

impl View for CrossCall {
    type V = CrossCallView;

    open spec fn view(&self) -> CrossCallView {
        match *self {
            CrossCall::CreateAccount {
                program,
                payer,
                account,
                lamports,
                space,
                owner,
                instruction,
            } => CrossCallView::CreateAccount {
                program,
                payer,
                account,
                lamports,
                space,
                owner,
                instruction: instruction@,
            },
            CrossCall::InitializeMint {
                program,
                mint,
                decimals,
                mint_authority,
                freeze_authority,
            } => CrossCallView::InitializeMint {
                program,
                mint,
                decimals,
                mint_authority,
                freeze_authority,
            },
            CrossCall::CreateHoldingAccount { program, payer, account, owner, mint } => {
                CrossCallView::CreateHoldingAccount { program, payer, account, owner, mint }
            },
            CrossCall::CreateMetadata {
                program,
                metadata,
                mint,
                mint_authority,
                payer,
                update_authority,
                update_authority_is_signer,
                args,
                instruction,
                signer,
            } => CrossCallView::CreateMetadata {
                program,
                metadata,
                mint,
                mint_authority,
                payer,
                update_authority,
                update_authority_is_signer,
                args: args@,
                instruction: instruction@,
                signer,
            },
            CrossCall::MintTo { program, mint, account, authority, amount, signer } => {
                CrossCallView::MintTo { program, mint, account, authority, amount, signer }
            },
            CrossCall::CreateMintManager {
                program,
                mint_manager,
                mint,
                freeze_authority,
                payer,
                signer,
            } => CrossCallView::CreateMintManager {
                program,
                mint_manager,
                mint,
                freeze_authority,
                payer,
                signer,
            },
        }
    }
}

/// The contents of a list of calls.
pub open spec fn call_list(calls: Seq<CrossCall>) -> Seq<CrossCallView> {
    calls.map_values(|c: CrossCall| c@)
}

} // verus!
