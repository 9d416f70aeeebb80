//! Creating a stake entry and the receipt token that goes with it.
//!
//! The operation is planned against the ledger and then run call by call:
//! the caller performs the pending call, reports how it went, and settles
//! the entry on the ledger once every call has gone through. The first call
//! that fails ends the run, and nothing of it stays behind.

use vstd::prelude::*;
use crate::address::Address;
use crate::address::Derived;
use crate::address::base58_text;
use crate::address::derivation;
use crate::address::holding_address;
use crate::address::holding_seeds;
use crate::address::stake_entry_address;
use crate::address::stake_entry_seeds;
use crate::calls::Creator;
use crate::calls::CrossCall;
use crate::calls::CrossCallView;
use crate::calls::MetadataArgs;
use crate::calls::MetadataArgsView;
use crate::calls::SigningProof;
use crate::calls::MINT_ACCOUNT_LEN;
use crate::calls::build_create_account;
use crate::calls::build_create_metadata;
use crate::calls::call_list;
use crate::calls::create_account_wire;
use crate::calls::create_metadata_wire;
use crate::calls::encodable;
use crate::calls::is_encodable;
use crate::calls::system_program;
use crate::calls::mint_account_len;
use crate::error::ErrorKind;
use crate::error::StakePoolError;
use crate::instructions::update_pool::is_authority;
use crate::instructions::update_pool::pool_at;
use crate::ledger::Ledger;
use crate::ledger::Record;
use crate::ledger::RecordView;
use crate::ledger::canonical_map;
use crate::ledger::lemma_canonical_insert;
use crate::ledger::sits_at_derived;
use crate::state::StakeEntry;
use crate::state::StakePoolView;
use crate::uri::compose;
use crate::uri::lemma_receipt_uri_suffix;
use crate::uri::receipt_uri;
use crate::uri::trim_nulls;
use mpl_token_metadata::state::Metadata;
use mpl_token_metadata::state::TokenMetadataAccount;
use solana_program::account_info::AccountInfo;
use solana_program::program_error::ProgramError;
use solana_program::pubkey::Pubkey;

verus! {

/// How the receipt token is described.
#[derive(Clone, Debug, PartialEq, Eq)]
pub struct InitEntryIx {
    pub name: String,
    pub symbol: String,
}

/// What a ledger account holds, as far as it is read here: the program that
/// owns the account, and its bytes. An account that does not exist has no
/// bytes.
#[derive(Clone, Debug, PartialEq, Eq)]
pub struct AccountData {
    pub owner: Address,
    pub data: Vec<u8>,
}

/// The accounts of an entry creation.
#[derive(Clone, Debug, PartialEq, Eq)]
pub struct InitEntryCtx {
    /// The pool under which the asset is staked.
    pub stake_pool: Address,
    /// The token definition of the staked asset.
    pub original_mint: Address,
    /// The metadata record of the staked asset, which may be absent.
    pub original_mint_metadata: AccountData,
    /// The fresh address at which the receipt token's mint is created.
    pub receipt_mint: Address,
    /// Where the lock manager keeps its record of the receipt mint.
    pub mint_manager: Address,
    /// Where the metadata program keeps the metadata of the receipt mint.
    pub receipt_mint_metadata: Address,
    /// The signer, who pays for the accounts; must be the pool's authority.
    pub payer: Address,
    /// The balance that exempts a mint account from rent.
    pub mint_rent: u64,
    pub token_program: Address,
    pub token_manager_program: Address,
    pub associated_token: Address,
    pub token_metadata_program: Address,
}

/// The link that the metadata record with the given owner and bytes stores,
/// or `None` where the bytes are no metadata record of the metadata program.
pub uninterp spec fn metadata_uri(owner: Seq<u8>, data: Seq<u8>) -> Option<Seq<char>>;

/// Calls `Metadata::from_account_info` of `mpl_token_metadata` on an account
/// with the given owner and bytes, and takes the link out of the record. The
/// outcome is a function of the owner and the bytes alone; the contract gives
/// the stored link the name `metadata_uri`.
#[verifier::external_body]
fn read_metadata_uri(owner: &Address, data: &Vec<u8>) -> (r: Result<String, ProgramError>)
    ensures
        r matches Ok(uri) ==> metadata_uri(owner@, data@) == Some(uri@),
        r is Err ==> metadata_uri(owner@, data@) is None,
{
    let key = Pubkey::new_from_array(owner.bytes);
    let mut lamports: u64 = 0;
    let mut bytes = data.clone();
    let info = AccountInfo::new(&key, false, false, &mut lamports, &mut bytes, &key, false, 0);
    Metadata::from_account_info(&info).map(|metadata| metadata.data.uri)
}

/// What is known of the original asset's metadata link.
#[derive(Debug, PartialEq, Eq)]
pub enum Original {
    /// The asset has no metadata record.
    Absent,
    /// The record is there and stores this link.
    Stored(String),
    /// The record is there and cannot be read.
    Unreadable(ProgramError),
}

/// The mathematical content of `Original`.
pub enum OriginalView {
    Absent,
    Stored(Seq<char>),
    Unreadable,
}

impl View for Original {
    type V = OriginalView;

    open spec fn view(&self) -> OriginalView {
        match *self {
            Original::Absent => OriginalView::Absent,
            Original::Stored(uri) => OriginalView::Stored(uri@),
            Original::Unreadable(_) => OriginalView::Unreadable,
        }
    }
}

impl OriginalView {
    /// The stored link, if one was read.
    pub open spec fn uri(self) -> Option<Seq<char>> {
        match self {
            OriginalView::Stored(uri) => Some(uri),
            _ => None,
        }
    }
}

/// What `account` tells of the original asset's metadata link.
pub open spec fn stored_original(account: AccountData) -> OriginalView {
    if account.data@.len() == 0 {
        OriginalView::Absent
    } else {
        match metadata_uri(account.owner@, account.data@) {
            Some(uri) => OriginalView::Stored(uri),
            None => OriginalView::Unreadable,
        }
    }
}

/// Reads the original asset's metadata link out of its metadata account.
pub fn read_original(account: &AccountData) -> (original: Original)
    ensures
        original@ == stored_original(*account),
{
    if account.data.len() == 0 {
        Original::Absent
    } else {
        match read_metadata_uri(&account.owner, &account.data) {
            Ok(uri) => Original::Stored(uri),
            Err(e) => Original::Unreadable(e),
        }
    }
}

/// The plan of an entry creation: the entry, its address, and the calls to
/// make, in their order.
pub struct Plan {
    pub address: Address,
    pub entry: StakeEntry,
    pub calls: Seq<CrossCallView>,
}

/// The proof with which the pool at `address` signs.
pub open spec fn pool_proof(address: Address, pool: StakePoolView) -> SigningProof {
    SigningProof { pool: address, identifier: pool.identifier, bump: pool.bump }
}

/// The metadata of the receipt token: the two halves of its proceeds go to
/// the pool, which vouches for it, and to the entry, which does not.
pub open spec fn receipt_metadata(
    ctx: InitEntryCtx,
    ix: InitEntryIx,
    entry: Address,
    uri: Seq<char>,
) -> MetadataArgsView {
    MetadataArgsView {
        name: ix.name@,
        symbol: ix.symbol@,
        uri,
        creators: seq![
            Creator { address: ctx.stake_pool, verified: true, share: 50 },
            Creator { address: entry, verified: false, share: 50 },
        ],
        seller_fee_basis_points: 0,
        is_mutable: true,
    }
}

/// The six calls of an entry creation: create the receipt mint's account,
/// make it a mint without decimals under the pool's authority, create the
/// entry's holding account, attach the metadata, mint the single unit into
/// the holding account, and hand freezing to the lock manager.
pub open spec fn entry_calls(
    ctx: InitEntryCtx,
    ix: InitEntryIx,
    signer: SigningProof,
    entry: Address,
    holding: Address,
    uri: Seq<char>,
) -> Seq<CrossCallView> {
    seq![
        CrossCallView::CreateAccount {
            program: system_program(),
            payer: ctx.payer,
            account: ctx.receipt_mint,
            lamports: ctx.mint_rent,
            space: MINT_ACCOUNT_LEN,
            owner: ctx.token_program,
            instruction: create_account_wire(
                ctx.payer,
                ctx.receipt_mint,
                ctx.mint_rent,
                MINT_ACCOUNT_LEN,
                ctx.token_program,
            ),
        },
        CrossCallView::InitializeMint {
            program: ctx.token_program,
            mint: ctx.receipt_mint,
            decimals: 0,
            mint_authority: ctx.stake_pool,
            freeze_authority: Some(ctx.stake_pool),
        },
        CrossCallView::CreateHoldingAccount {
            program: ctx.associated_token,
            payer: ctx.payer,
            account: holding,
            owner: entry,
            mint: ctx.receipt_mint,
        },
        CrossCallView::CreateMetadata {
            program: ctx.token_metadata_program,
            metadata: ctx.receipt_mint_metadata,
            mint: ctx.receipt_mint,
            mint_authority: ctx.stake_pool,
            payer: ctx.payer,
            update_authority: ctx.stake_pool,
            update_authority_is_signer: true,
            args: receipt_metadata(ctx, ix, entry, uri),
            instruction: create_metadata_wire(
                ctx.token_metadata_program,
                ctx.receipt_mint_metadata,
                ctx.receipt_mint,
                ctx.stake_pool,
                ctx.payer,
                ctx.stake_pool,
                true,
                receipt_metadata(ctx, ix, entry, uri),
            ),
            signer,
        },
        CrossCallView::MintTo {
            program: ctx.token_program,
            mint: ctx.receipt_mint,
            account: holding,
            authority: ctx.stake_pool,
            amount: 1,
            signer,
        },
        CrossCallView::CreateMintManager {
            program: ctx.token_manager_program,
            mint_manager: ctx.mint_manager,
            mint: ctx.receipt_mint,
            freeze_authority: ctx.stake_pool,
            payer: ctx.payer,
            signer,
        },
    ]
}

/// What the planning of an entry creation yields, where `entry` is the
/// derived address of the entry, `holding` that of its holding account,
/// `mint_text` the text of the receipt mint's address and `original` what is
/// known of the original asset's metadata link: the plan, or the reason for
/// which the creation is rejected.
pub open spec fn plan_entry(
    ledger: Map<Address, RecordView>,
    ctx: InitEntryCtx,
    ix: InitEntryIx,
    entry: Option<Derived>,
    holding: Option<Derived>,
    mint_text: Seq<char>,
    original: OriginalView,
) -> Result<Plan, ErrorKind> {
    if entry is None {
        Err(ErrorKind::NoDerivedAddress)
    } else if ledger.contains_key(entry->0.address) {
        Err(ErrorKind::AddressCollision)
    } else if !is_authority(ledger, ctx.stake_pool, ctx.payer) {
        Err(ErrorKind::AuthorizationFailure)
    } else if holding is None {
        Err(ErrorKind::NoDerivedAddress)
    } else if original is Unreadable {
        Err(ErrorKind::CrossCallFailure)
    } else if !(encodable(ix.name@) && encodable(ix.symbol@) && encodable(
        receipt_uri(mint_text, pool_at(ledger, ctx.stake_pool).overlay_text, original.uri()),
    )) {
        Err(ErrorKind::CapacityExceeded)
    } else {
        Ok(
            Plan {
                address: entry->0.address,
                entry: StakeEntry {
                    bump: entry->0.bump,
                    pool: ctx.stake_pool,
                    original_mint: ctx.original_mint,
                    receipt_mint: ctx.receipt_mint,
                },
                calls: entry_calls(
                    ctx,
                    ix,
                    pool_proof(ctx.stake_pool, pool_at(ledger, ctx.stake_pool)),
                    entry->0.address,
                    holding->0.address,
                    receipt_uri(
                        mint_text,
                        pool_at(ledger, ctx.stake_pool).overlay_text,
                        original.uri(),
                    ),
                ),
            },
        )
    }
}

/// Every planned entry creation mints exactly one unit of the receipt token:
/// one call mints, it mints one unit, under the pool's authority and signed
/// by the pool, into the holding account that an earlier call creates for
/// the entry. This holds whatever is known of the original asset's
/// metadata.
pub proof fn lemma_single_unit_minted(
    ledger: Map<Address, RecordView>,
    ctx: InitEntryCtx,
    ix: InitEntryIx,
    entry: Option<Derived>,
    holding: Option<Derived>,
    mint_text: Seq<char>,
    original: OriginalView,
)
    requires
        plan_entry(ledger, ctx, ix, entry, holding, mint_text, original) is Ok,
    ensures
        entry is Some && holding is Some,
        ({
            let plan = plan_entry(ledger, ctx, ix, entry, holding, mint_text, original)->Ok_0;
            &&& plan.address == entry->0.address
            &&& plan.calls.len() == 6
            &&& plan.calls[2] == CrossCallView::CreateHoldingAccount {
                program: ctx.associated_token,
                payer: ctx.payer,
                account: holding->0.address,
                owner: plan.address,
                mint: ctx.receipt_mint,
            }
            &&& plan.calls[4] == CrossCallView::MintTo {
                program: ctx.token_program,
                mint: ctx.receipt_mint,
                account: holding->0.address,
                authority: ctx.stake_pool,
                amount: 1,
                signer: pool_proof(ctx.stake_pool, pool_at(ledger, ctx.stake_pool)),
            }
            &&& forall|i: int| 0 <= i < 6 && i != 4 ==> !(#[trigger] plan.calls[i] is MintTo)
        }),
{
}

/// The receipt mint of a planned entry has no decimals, and the pool is its
/// minting and its freezing authority; the signer of the operation is
/// neither.
pub proof fn lemma_pool_owns_receipt_mint(
    ledger: Map<Address, RecordView>,
    ctx: InitEntryCtx,
    ix: InitEntryIx,
    entry: Option<Derived>,
    holding: Option<Derived>,
    mint_text: Seq<char>,
    original: OriginalView,
)
    requires
        plan_entry(ledger, ctx, ix, entry, holding, mint_text, original) is Ok,
    ensures
        plan_entry(ledger, ctx, ix, entry, holding, mint_text, original)->Ok_0.calls[1]
            == (CrossCallView::InitializeMint {
            program: ctx.token_program,
            mint: ctx.receipt_mint,
            decimals: 0,
            mint_authority: ctx.stake_pool,
            freeze_authority: Some(ctx.stake_pool),
        }),
{
}

/// An entry is created once: while the entry of a pool and an original
/// asset lives on the ledger, every further creation for the same pool and
/// asset under the same program is rejected for the collision of addresses,
/// whoever signs it.
pub proof fn lemma_entry_created_once(
    program: Address,
    ledger: Map<Address, RecordView>,
    existing: Address,
    ctx: InitEntryCtx,
    ix: InitEntryIx,
    mint_text: Seq<char>,
    original: OriginalView,
)
    requires
        canonical_map(program, ledger),
        ledger.contains_key(existing),
        ledger[existing] matches RecordView::StakeEntry(e) && e.pool == ctx.stake_pool
            && e.original_mint == ctx.original_mint,
    ensures
        plan_entry(
            ledger,
            ctx,
            ix,
            derivation(stake_entry_seeds(ctx.stake_pool, ctx.original_mint), program),
            holding_derivation(
                ctx,
                derivation(stake_entry_seeds(ctx.stake_pool, ctx.original_mint), program),
            ),
            mint_text,
            original,
        ) == Err::<Plan, ErrorKind>(ErrorKind::AddressCollision),
{
}

/// The link in the receipt's metadata: it ends with the overlay text where
/// the original asset has no metadata or an empty link, and with `&uri=` and
/// the original link without its padding otherwise.
pub proof fn lemma_receipt_link(
    ledger: Map<Address, RecordView>,
    ctx: InitEntryCtx,
    ix: InitEntryIx,
    entry: Option<Derived>,
    holding: Option<Derived>,
    mint_text: Seq<char>,
    original: OriginalView,
)
    requires
        plan_entry(ledger, ctx, ix, entry, holding, mint_text, original) is Ok,
    ensures
        ({
            let plan = plan_entry(ledger, ctx, ix, entry, holding, mint_text, original)->Ok_0;
            let head = "https://api.cardinal.so/metadata/"@ + mint_text + "?text="@ + pool_at(
                ledger,
                ctx.stake_pool,
            ).overlay_text;
            &&& plan.calls[3] is CreateMetadata
            &&& plan.calls[3]->CreateMetadata_args.name == ix.name@
            &&& plan.calls[3]->CreateMetadata_args.symbol == ix.symbol@
            &&& (original is Absent || trim_nulls(original.uri()->0).len() == 0)
                ==> plan.calls[3]->CreateMetadata_args.uri == head
            &&& (original is Stored && trim_nulls(original.uri()->0).len() > 0)
                ==> plan.calls[3]->CreateMetadata_args.uri == head + "&uri="@ + trim_nulls(
                original.uri()->0,
            )
        }),
{
    lemma_receipt_uri_suffix(
        mint_text,
        pool_at(ledger, ctx.stake_pool).overlay_text,
        original.uri(),
    );
}

/// An entry creation under way: its plan, and how many of its calls have
/// gone through. A run always has a call pending.
#[derive(Debug)]
pub struct EntryRun {
    address: Address,
    entry: StakeEntry,
    calls: Vec<CrossCall>,
    completed: usize,
}

/// An entry creation whose calls have all gone through, and which remains to
/// be settled on the ledger.
#[derive(Debug)]
pub struct Settlement {
    address: Address,
    entry: StakeEntry,
}

/// Where a run stands after a call has gone through.
#[derive(Debug)]
pub enum Progress {
    /// Another call is pending.
    Pending(EntryRun),
    /// Every call has gone through.
    Complete(Settlement),
}

impl View for EntryRun {
    type V = Plan;

    closed spec fn view(&self) -> Plan {
        Plan { address: self.address, entry: self.entry, calls: call_list(self.calls@) }
    }
}

impl EntryRun {
    /// The number of calls that have gone through.
    pub closed spec fn completed(&self) -> nat {
        self.completed as nat
    }

    /// A call is pending.
    pub open spec fn wf(&self) -> bool {
        self.completed() < self@.calls.len()
    }

    /// The address at which the entry will live.
    pub fn entry_address(&self) -> (a: Address)
        ensures
            a == self@.address,
    {
        self.address
    }

    /// The entry that will be created.
    pub fn entry(&self) -> (e: StakeEntry)
        ensures
            e == self@.entry,
    {
        self.entry
    }

    /// The call to perform next.
    pub fn pending(&self) -> (call: &CrossCall)
        requires
            self.wf(),
        ensures
            call@ == self@.calls[self.completed() as int],
    {
        &self.calls[self.completed]
    }

    /// Takes note of how the pending call went. A failure ends the run with
    /// what the called program reported; a success makes the next call
    /// pending or, after the last call, completes the run.
    pub fn resume(self, outcome: Result<(), ProgramError>) -> (r: Result<Progress, StakePoolError>)
        requires
            self.wf(),
        ensures
            match outcome {
                Err(reported) => r == Err::<Progress, StakePoolError>(
                    StakePoolError::CrossCallFailure(reported),
                ),
                Ok(_) => if self.completed() + 1 < self@.calls.len() {
                    r matches Ok(Progress::Pending(next)) && next.wf() && next@ == self@
                        && next.completed() == self.completed() + 1
                } else {
                    r matches Ok(Progress::Complete(done)) && done.address() == self@.address
                        && done.entry() == self@.entry
                },
            },
    {
        match outcome {
            Err(e) => Err(StakePoolError::CrossCallFailure(e)),
            Ok(()) => {
                let planned: usize = self.calls.len();
                assert(call_list(self.calls@).len() == planned);
                let completed: usize = self.completed + 1;
                if completed < planned {
                    Ok(
                        Progress::Pending(
                            EntryRun {
                                address: self.address,
                                entry: self.entry,
                                calls: self.calls,
                                completed,
                            },
                        ),
                    )
                } else {
                    Ok(Progress::Complete(Settlement { address: self.address, entry: self.entry }))
                }
            },
        }
    }
}

impl Settlement {
    /// The address at which the entry will live.
    pub closed spec fn address(&self) -> Address {
        self.address
    }

    /// The entry that will be created.
    pub closed spec fn entry(&self) -> StakeEntry {
        self.entry
    }

    /// Creates the entry on the ledger. Where another record has taken the
    /// address in the meantime, the entry is rejected and the ledger stays
    /// as it is.
    pub fn settle(self, ledger: &mut Ledger) -> (r: Result<(), StakePoolError>)
        requires
            old(ledger).wf(),
        ensures
            final(ledger).wf(),
            final(ledger).program() == old(ledger).program(),
            old(ledger)@.contains_key(self.address()) ==> r == Err::<(), StakePoolError>(
                StakePoolError::AddressCollision,
            ) && *final(ledger) == *old(ledger),
            !old(ledger)@.contains_key(self.address()) ==> r is Ok && final(ledger)@ == old(
                ledger,
            )@.insert(self.address(), RecordView::StakeEntry(self.entry())),
            old(ledger).canonical() && sits_at_derived(
                old(ledger).program(),
                self.address(),
                RecordView::StakeEntry(self.entry()),
            ) ==> final(ledger).canonical(),
    {
        proof {
            if old(ledger).canonical() && sits_at_derived(
                old(ledger).program(),
                self.address(),
                RecordView::StakeEntry(self.entry()),
            ) {
                lemma_canonical_insert(
                    ledger.program(),
                    ledger@,
                    self.address(),
                    RecordView::StakeEntry(self.entry()),
                );
            }
        }
        ledger.create(self.address, Record::StakeEntry(self.entry))
    }
}

/// Plans the creation of an entry from what was derived and read for it.
/// The ledger is only read.
pub fn plan(
    ledger: &Ledger,
    ctx: &InitEntryCtx,
    ix: InitEntryIx,
    entry: Option<Derived>,
    holding: Option<Derived>,
    mint_text: &str,
    original: Original,
) -> (r: Result<EntryRun, StakePoolError>)
    requires
        ledger.wf(),
    ensures
        match plan_entry(ledger@, *ctx, ix, entry, holding, mint_text@, original@) {
            Ok(plan) => r matches Ok(run) && run@ == plan && run.wf() && run.completed() == 0,
            Err(kind) => r matches Err(e) && e.kind() == kind,
        },
{
    let entry = match entry {
        Some(entry) => entry,
        None => {
            return Err(StakePoolError::NoDerivedAddress);
        },
    };
    if ledger.is_occupied(&entry.address) {
        return Err(StakePoolError::AddressCollision);
    }
    let pool = match ledger.stake_pool(&ctx.stake_pool) {
        Some(pool) => pool,
        None => {
            return Err(StakePoolError::AuthorizationFailure);
        },
    };
    if !pool.authority.same(&ctx.payer) {
        return Err(StakePoolError::AuthorizationFailure);
    }
    let holding = match holding {
        Some(holding) => holding,
        None => {
            return Err(StakePoolError::NoDerivedAddress);
        },
    };
    let uri = match original {
        Original::Unreadable(e) => {
            return Err(StakePoolError::CrossCallFailure(e));
        },
        Original::Stored(stored) => compose(
            mint_text,
            pool.overlay_text.as_str(),
            Some(stored.as_str()),
        ),
        Original::Absent => compose(mint_text, pool.overlay_text.as_str(), None),
    };
    if !(is_encodable(ix.name.as_str()) && is_encodable(ix.symbol.as_str()) && is_encodable(
        uri.as_str(),
    )) {
        return Err(StakePoolError::CapacityExceeded);
    }
    let signer = SigningProof { pool: ctx.stake_pool, identifier: pool.identifier, bump: pool.bump };
    let ghost want = entry_calls(*ctx, ix, signer, entry.address, holding.address, uri@);
    let mut creators: Vec<Creator> = Vec::new();
    creators.push(Creator { address: ctx.stake_pool, verified: true, share: 50 });
    creators.push(Creator { address: entry.address, verified: false, share: 50 });
    let args = MetadataArgs {
        name: ix.name,
        symbol: ix.symbol,
        uri,
        creators,
        seller_fee_basis_points: 0,
        is_mutable: true,
    };
    assert(args@.creators =~= receipt_metadata(*ctx, ix, entry.address, args@.uri).creators);
    assert(args@ == receipt_metadata(*ctx, ix, entry.address, args@.uri));
    let space: u64 = mint_account_len();
    let creation = build_create_account(
        &ctx.payer,
        &ctx.receipt_mint,
        ctx.mint_rent,
        space,
        &ctx.token_program,
    );
    assert(creation@ == create_account_wire(
        ctx.payer,
        ctx.receipt_mint,
        ctx.mint_rent,
        MINT_ACCOUNT_LEN,
        ctx.token_program,
    ));
    let attachment = build_create_metadata(
        &ctx.token_metadata_program,
        &ctx.receipt_mint_metadata,
        &ctx.receipt_mint,
        &ctx.stake_pool,
        &ctx.payer,
        &ctx.stake_pool,
        true,
        args.name.clone(),
        args.symbol.clone(),
        args.uri.clone(),
        &args.creators,
        0,
        true,
    );
    assert(attachment@ == create_metadata_wire(
        ctx.token_metadata_program,
        ctx.receipt_mint_metadata,
        ctx.receipt_mint,
        ctx.stake_pool,
        ctx.payer,
        ctx.stake_pool,
        true,
        args@,
    ));
    let mut calls: Vec<CrossCall> = Vec::new();
    calls.push(
        CrossCall::CreateAccount {
            program: creation.program,
            payer: ctx.payer,
            account: ctx.receipt_mint,
            lamports: ctx.mint_rent,
            space,
            owner: ctx.token_program,
            instruction: creation,
        },
    );
    calls.push(
        CrossCall::InitializeMint {
            program: ctx.token_program,
            mint: ctx.receipt_mint,
            decimals: 0,
            mint_authority: ctx.stake_pool,
            freeze_authority: Some(ctx.stake_pool),
        },
    );
    calls.push(
        CrossCall::CreateHoldingAccount {
            program: ctx.associated_token,
            payer: ctx.payer,
            account: holding.address,
            owner: entry.address,
            mint: ctx.receipt_mint,
        },
    );
    calls.push(
        CrossCall::CreateMetadata {
            program: ctx.token_metadata_program,
            metadata: ctx.receipt_mint_metadata,
            mint: ctx.receipt_mint,
            mint_authority: ctx.stake_pool,
            payer: ctx.payer,
            update_authority: ctx.stake_pool,
            update_authority_is_signer: true,
            args,
            instruction: attachment,
            signer,
        },
    );
    calls.push(
        CrossCall::MintTo {
            program: ctx.token_program,
            mint: ctx.receipt_mint,
            account: holding.address,
            authority: ctx.stake_pool,
            amount: 1,
            signer,
        },
    );
    calls.push(
        CrossCall::CreateMintManager {
            program: ctx.token_manager_program,
            mint_manager: ctx.mint_manager,
            mint: ctx.receipt_mint,
            freeze_authority: ctx.stake_pool,
            payer: ctx.payer,
            signer,
        },
    );
    assert(call_list(calls@) =~= want);
    Ok(
        EntryRun {
            address: entry.address,
            entry: StakeEntry {
                bump: entry.bump,
                pool: ctx.stake_pool,
                original_mint: ctx.original_mint,
                receipt_mint: ctx.receipt_mint,
            },
            calls,
            completed: 0,
        },
    )
}

/// The derived address of the holding account of the entry, where the entry
/// has a derived address.
pub open spec fn holding_derivation(ctx: InitEntryCtx, entry: Option<Derived>) -> Option<Derived> {
    match entry {
        Some(entry) => derivation(
            holding_seeds(entry.address, ctx.token_program, ctx.receipt_mint),
            ctx.associated_token,
        ),
        None => None,
    }
}

/// Plans the creation of the entry for `ctx.original_mint` under
/// `ctx.stake_pool`, for the pool's authority. The entry is created only
/// when the run that this returns has completed and is settled.
pub fn handler(ledger: &Ledger, ctx: &InitEntryCtx, ix: InitEntryIx) -> (r: Result<
    EntryRun,
    StakePoolError,
>)
    requires
        ledger.wf(),
    ensures
        match plan_entry(
            ledger@,
            *ctx,
            ix,
            derivation(stake_entry_seeds(ctx.stake_pool, ctx.original_mint), ledger.program()),
            holding_derivation(
                *ctx,
                derivation(
                    stake_entry_seeds(ctx.stake_pool, ctx.original_mint),
                    ledger.program(),
                ),
            ),
            base58_text(ctx.receipt_mint@),
            stored_original(ctx.original_mint_metadata),
        ) {
            Ok(plan) => r matches Ok(run) && run@ == plan && run.wf() && run.completed() == 0
                && sits_at_derived(
                ledger.program(),
                plan.address,
                RecordView::StakeEntry(plan.entry),
            ),
            Err(kind) => r matches Err(e) && e.kind() == kind,
        },
{
    let program = ledger.program_address();
    let entry = stake_entry_address(&program, &ctx.stake_pool, &ctx.original_mint);
    let holding = match entry {
        Some(entry) => holding_address(
            &ctx.associated_token,
            &ctx.token_program,
            &entry.address,
            &ctx.receipt_mint,
        ),
        None => None,
    };
    let mint_text = ctx.receipt_mint.to_text();
    let original = read_original(&ctx.original_mint_metadata);
    plan(ledger, ctx, ix, entry, holding, mint_text.as_str(), original)
}

} // verus!
