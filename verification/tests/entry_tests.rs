use anchor_lang::{AnchorDeserialize, AnchorSerialize};
use cardinal_stake_pool::address::{
    holding_address, stake_entry_address, stake_pool_address, Address, Derived,
};
use cardinal_stake_pool::calls::{
    AccountMeta, Creator, CrossCall, Instruction, MetadataArgs, SigningProof,
};
use cardinal_stake_pool::error::{ErrorKind, StakePoolError};
use cardinal_stake_pool::instructions::init_entry::{
    self, AccountData, EntryRun, InitEntryCtx, InitEntryIx, Original, Progress,
};
use cardinal_stake_pool::instructions::init_pool::{self, InitPoolCtx, InitPoolIx};
use cardinal_stake_pool::instructions::update_pool::{self, UpdatePoolCtx, UpdatePoolIx};
use cardinal_stake_pool::ledger::Ledger;
use cardinal_stake_pool::state::StakeEntry;
use mpl_token_metadata::instruction::{create_metadata_accounts_v2, MetadataInstruction};
use mpl_token_metadata::state::{Data, Key, Metadata, MAX_METADATA_LEN};
use solana_program::program_error::ProgramError;
use solana_program::pubkey::Pubkey;
use solana_program::system_instruction;

fn addr(fill: u8) -> Address {
    Address::from_bytes([fill; 32])
}

fn program() -> Address {
    addr(9)
}

fn authority() -> Address {
    addr(1)
}

fn token_program() -> Address {
    Address::from_bytes(spl_token::id().to_bytes())
}

fn associated_program() -> Address {
    Address::from_bytes(anchor_spl::associated_token::ID.to_bytes())
}

fn metadata_program() -> Address {
    Address::from_bytes(mpl_token_metadata::id().to_bytes())
}

fn no_metadata() -> AccountData {
    AccountData { owner: addr(0), data: vec![] }
}

fn stored_metadata(uri: &str) -> AccountData {
    let record = Metadata {
        key: Key::MetadataV1,
        update_authority: Pubkey::new_from_array([4; 32]),
        mint: Pubkey::new_from_array([5; 32]),
        data: Data {
            name: "Original".to_string(),
            symbol: "ORIG".to_string(),
            uri: uri.to_string(),
            seller_fee_basis_points: 500,
            creators: None,
        },
        primary_sale_happened: false,
        is_mutable: true,
        edition_nonce: None,
        token_standard: None,
        collection: None,
        uses: None,
        collection_details: None,
    };
    let mut data = record.try_to_vec().unwrap();
    data.resize(MAX_METADATA_LEN, 0);
    AccountData { owner: metadata_program(), data }
}

fn pool_ledger(overlay_text: &str) -> (Ledger, Derived) {
    let mut ledger = Ledger::for_program(program());
    let ix = InitPoolIx {
        identifier: 7,
        overlay_text: overlay_text.to_string(),
        image_uri: "".to_string(),
        allowed_collections: vec![],
        allowed_creators: vec![],
        authority: authority(),
    };
    init_pool::handler(&mut ledger, &InitPoolCtx { payer: authority() }, ix).unwrap();
    (ledger, stake_pool_address(&program(), 7).unwrap())
}

fn accounts(pool: Address, original_mint: Address, metadata: AccountData) -> InitEntryCtx {
    InitEntryCtx {
        stake_pool: pool,
        original_mint,
        original_mint_metadata: metadata,
        receipt_mint: addr(100),
        mint_manager: addr(101),
        receipt_mint_metadata: addr(102),
        payer: authority(),
        mint_rent: 1_461_600,
        token_program: token_program(),
        token_manager_program: addr(103),
        associated_token: associated_program(),
        token_metadata_program: metadata_program(),
    }
}

fn key(a: &Address) -> Pubkey {
    Pubkey::new_from_array(a.bytes)
}

fn plain(built: solana_program::instruction::Instruction) -> Instruction {
    Instruction {
        program: Address::from_bytes(built.program_id.to_bytes()),
        accounts: built
            .accounts
            .iter()
            .map(|m| AccountMeta {
                address: Address::from_bytes(m.pubkey.to_bytes()),
                is_signer: m.is_signer,
                is_writable: m.is_writable,
            })
            .collect(),
        data: built.data,
    }
}

fn naming() -> InitEntryIx {
    InitEntryIx { name: "Staked NFT".to_string(), symbol: "sNFT".to_string() }
}

/// Performs every call of the run with success and settles the entry.
fn complete(ledger: &mut Ledger, run: EntryRun) -> (Vec<CrossCall>, Result<(), StakePoolError>) {
    let mut calls = vec![];
    let mut run = run;
    loop {
        calls.push(run.pending().clone());
        match run.resume(Ok(())).unwrap() {
            Progress::Pending(next) => run = next,
            Progress::Complete(done) => return (calls, done.settle(ledger)),
        }
    }
}

fn metadata_link(calls: &[CrossCall]) -> String {
    match &calls[3] {
        CrossCall::CreateMetadata { args, .. } => args.uri.clone(),
        other => panic!("not a metadata call: {:?}", other),
    }
}

#[test]
fn end_to_end() {
    let (mut ledger, pool) = pool_ledger("X");
    let mint = addr(50);
    let ctx = accounts(pool.address, mint, no_metadata());
    let run = init_entry::handler(&ledger, &ctx, naming()).unwrap();
    let entry = stake_entry_address(&program(), &pool.address, &mint).unwrap();
    let holding =
        holding_address(&associated_program(), &token_program(), &entry.address, &addr(100))
            .unwrap();
    assert_eq!(run.entry_address(), entry.address);
    let record = StakeEntry {
        bump: entry.bump,
        pool: pool.address,
        original_mint: mint,
        receipt_mint: addr(100),
    };
    assert_eq!(run.entry(), record);
    // nothing is on the ledger before the run is settled
    assert_eq!(ledger.len(), 2);
    assert!(!ledger.is_occupied(&entry.address));

    let (calls, settled) = complete(&mut ledger, run);
    assert_eq!(settled, Ok(()));
    assert_eq!(ledger.len(), 3);
    assert_eq!(ledger.stake_entry(&entry.address), Some(record));

    let signer = SigningProof { pool: pool.address, identifier: 7, bump: pool.bump };
    let want = vec![
        CrossCall::CreateAccount {
            program: addr(0),
            payer: authority(),
            account: addr(100),
            lamports: 1_461_600,
            space: 82,
            owner: token_program(),
            instruction: plain(system_instruction::create_account(
                &key(&authority()),
                &key(&addr(100)),
                1_461_600,
                82,
                &spl_token::id(),
            )),
        },
        CrossCall::InitializeMint {
            program: token_program(),
            mint: addr(100),
            decimals: 0,
            mint_authority: pool.address,
            freeze_authority: Some(pool.address),
        },
        CrossCall::CreateHoldingAccount {
            program: associated_program(),
            payer: authority(),
            account: holding.address,
            owner: entry.address,
            mint: addr(100),
        },
        CrossCall::CreateMetadata {
            program: metadata_program(),
            metadata: addr(102),
            mint: addr(100),
            mint_authority: pool.address,
            payer: authority(),
            update_authority: pool.address,
            update_authority_is_signer: true,
            args: MetadataArgs {
                name: "Staked NFT".to_string(),
                symbol: "sNFT".to_string(),
                uri: format!(
                    "https://api.cardinal.so/metadata/{}?text=X",
                    Pubkey::new_from_array([100; 32])
                ),
                creators: vec![
                    Creator { address: pool.address, verified: true, share: 50 },
                    Creator { address: entry.address, verified: false, share: 50 },
                ],
                seller_fee_basis_points: 0,
                is_mutable: true,
            },
            instruction: plain(create_metadata_accounts_v2(
                mpl_token_metadata::id(),
                key(&addr(102)),
                key(&addr(100)),
                key(&pool.address),
                key(&authority()),
                key(&pool.address),
                "Staked NFT".to_string(),
                "sNFT".to_string(),
                format!(
                    "https://api.cardinal.so/metadata/{}?text=X",
                    Pubkey::new_from_array([100; 32])
                ),
                Some(vec![
                    mpl_token_metadata::state::Creator {
                        address: key(&pool.address),
                        verified: true,
                        share: 50,
                    },
                    mpl_token_metadata::state::Creator {
                        address: key(&entry.address),
                        verified: false,
                        share: 50,
                    },
                ]),
                0,
                true,
                true,
                None,
                None,
            )),
            signer,
        },
        CrossCall::MintTo {
            program: token_program(),
            mint: addr(100),
            account: holding.address,
            authority: pool.address,
            amount: 1,
            signer,
        },
        CrossCall::CreateMintManager {
            program: addr(103),
            mint_manager: addr(101),
            mint: addr(100),
            freeze_authority: pool.address,
            payer: authority(),
            signer,
        },
    ];
    assert_eq!(calls, want);

    // the same pool and asset again, with another receipt mint
    let mut again = accounts(pool.address, mint, no_metadata());
    again.receipt_mint = addr(110);
    let rejected = init_entry::handler(&ledger, &again, naming()).unwrap_err();
    assert_eq!(rejected, StakePoolError::AddressCollision);
    assert_eq!(ledger.len(), 3);
    assert_eq!(ledger.stake_entry(&entry.address), Some(record));
}

#[test]
fn second_entry_collides_whoever_signs() {
    let (mut ledger, pool) = pool_ledger("X");
    let ctx = accounts(pool.address, addr(50), no_metadata());
    let run = init_entry::handler(&ledger, &ctx, naming()).unwrap();
    assert_eq!(complete(&mut ledger, run).1, Ok(()));
    let mut stranger = accounts(pool.address, addr(50), no_metadata());
    stranger.payer = addr(66);
    assert_eq!(
        init_entry::handler(&ledger, &stranger, naming()).unwrap_err(),
        StakePoolError::AddressCollision
    );
    // another asset under the same pool is free
    let other = accounts(pool.address, addr(51), no_metadata());
    assert!(init_entry::handler(&ledger, &other, naming()).is_ok());
}

#[test]
fn two_runs_for_one_pair_settle_once() {
    let (mut ledger, pool) = pool_ledger("X");
    let ctx = accounts(pool.address, addr(50), no_metadata());
    let first = init_entry::handler(&ledger, &ctx, naming()).unwrap();
    let second = init_entry::handler(&ledger, &ctx, naming()).unwrap();
    assert_eq!(complete(&mut ledger, first).1, Ok(()));
    let before = ledger.clone();
    assert_eq!(complete(&mut ledger, second).1, Err(StakePoolError::AddressCollision));
    assert_eq!(ledger, before);
}

#[test]
fn entry_needs_the_authority_of_the_pool() {
    let (ledger, pool) = pool_ledger("X");
    let mut ctx = accounts(pool.address, addr(50), no_metadata());
    ctx.payer = addr(66);
    assert_eq!(
        init_entry::handler(&ledger, &ctx, naming()).unwrap_err(),
        StakePoolError::AuthorizationFailure
    );
    let missing = accounts(addr(77), addr(50), no_metadata());
    assert_eq!(
        init_entry::handler(&ledger, &missing, naming()).unwrap_err(),
        StakePoolError::AuthorizationFailure
    );
}

#[test]
fn entry_follows_a_change_of_authority_and_overlay() {
    let (mut ledger, pool) = pool_ledger("X");
    let ix = UpdatePoolIx {
        overlay_text: Some("LOCKED".to_string()),
        image_uri: None,
        requires_collections: None,
        requires_creators: None,
        requires_authorization: None,
        authority: Some(addr(2)),
        reset_on_stake: None,
        cooldown_seconds: None,
        min_stake_seconds: None,
        end_date: None,
    };
    update_pool::handler(
        &mut ledger,
        &UpdatePoolCtx { stake_pool: pool.address, payer: authority() },
        ix,
    )
    .unwrap();
    let mut ctx = accounts(pool.address, addr(50), no_metadata());
    assert_eq!(
        init_entry::handler(&ledger, &ctx, naming()).unwrap_err(),
        StakePoolError::AuthorizationFailure
    );
    ctx.payer = addr(2);
    let run = init_entry::handler(&ledger, &ctx, naming()).unwrap();
    let (calls, settled) = complete(&mut ledger, run);
    assert_eq!(settled, Ok(()));
    assert_eq!(
        metadata_link(&calls),
        format!(
            "https://api.cardinal.so/metadata/{}?text=LOCKED",
            Pubkey::new_from_array([100; 32])
        )
    );
}

#[test]
fn one_unit_is_minted_with_and_without_metadata() {
    for metadata in [no_metadata(), stored_metadata("https://arweave.net/abc")] {
        let (mut ledger, pool) = pool_ledger("X");
        let ctx = accounts(pool.address, addr(50), metadata);
        let run = init_entry::handler(&ledger, &ctx, naming()).unwrap();
        let entry = run.entry_address();
        let (calls, _) = complete(&mut ledger, run);
        let holding =
            holding_address(&associated_program(), &token_program(), &entry, &addr(100)).unwrap();
        let minted: Vec<&CrossCall> =
            calls.iter().filter(|c| matches!(c, CrossCall::MintTo { .. })).collect();
        assert_eq!(minted.len(), 1);
        match minted[0] {
            CrossCall::MintTo { mint, account, authority, amount, .. } => {
                assert_eq!(*amount, 1);
                assert_eq!(*mint, addr(100));
                assert_eq!(*account, holding.address);
                assert_eq!(*authority, pool.address);
            }
            _ => unreachable!(),
        }
        match &calls[2] {
            CrossCall::CreateHoldingAccount { account, owner, .. } => {
                assert_eq!(*account, holding.address);
                assert_eq!(*owner, entry);
            }
            other => panic!("not a holding account: {:?}", other),
        }
    }
}

#[test]
fn link_carries_the_stored_link_without_its_padding() {
    let (ledger, pool) = pool_ledger("X");
    let padded = format!("https://arweave.net/abc{}", "\0".repeat(177));
    let ctx = accounts(pool.address, addr(50), stored_metadata(&padded));
    let mut ledger = ledger;
    let run = init_entry::handler(&ledger, &ctx, naming()).unwrap();
    let (calls, _) = complete(&mut ledger, run);
    assert_eq!(
        metadata_link(&calls),
        format!(
            "https://api.cardinal.so/metadata/{}?text=X&uri=https://arweave.net/abc",
            Pubkey::new_from_array([100; 32])
        )
    );
}

#[test]
fn link_has_no_parameter_for_an_empty_stored_link() {
    for stored in ["".to_string(), "\0".repeat(200)] {
        let (mut ledger, pool) = pool_ledger("X");
        let ctx = accounts(pool.address, addr(50), stored_metadata(&stored));
        let run = init_entry::handler(&ledger, &ctx, naming()).unwrap();
        let (calls, _) = complete(&mut ledger, run);
        assert_eq!(
            metadata_link(&calls),
            format!(
                "https://api.cardinal.so/metadata/{}?text=X",
                Pubkey::new_from_array([100; 32])
            )
        );
    }
}

#[test]
fn metadata_is_read_by_the_metadata_crate() {
    assert_eq!(init_entry::read_original(&no_metadata()), Original::Absent);
    assert_eq!(
        init_entry::read_original(&stored_metadata("abc\0\0")),
        Original::Stored("abc\0\0".to_string())
    );
    // the same bytes under another owner are no metadata record
    let mut foreign = stored_metadata("abc");
    foreign.owner = addr(8);
    assert!(matches!(init_entry::read_original(&foreign), Original::Unreadable(_)));
    // neither are bytes of another length
    let mut short = stored_metadata("abc");
    short.data.truncate(100);
    assert!(matches!(init_entry::read_original(&short), Original::Unreadable(_)));
    let garbage = AccountData { owner: metadata_program(), data: vec![255; MAX_METADATA_LEN] };
    assert!(matches!(init_entry::read_original(&garbage), Original::Unreadable(_)));
}

#[test]
fn unreadable_metadata_rejects_the_entry() {
    let (ledger, pool) = pool_ledger("X");
    let mut record = stored_metadata("abc");
    record.owner = addr(8);
    let ctx = accounts(pool.address, addr(50), record);
    let rejected = init_entry::handler(&ledger, &ctx, naming()).unwrap_err();
    assert_eq!(rejected.kind(), ErrorKind::CrossCallFailure);
}

#[test]
fn failed_call_ends_the_run_and_leaves_nothing() {
    for failing in 0..6 {
        let (ledger, pool) = pool_ledger("X");
        let before = ledger.clone();
        let ctx = accounts(pool.address, addr(50), no_metadata());
        let mut run = init_entry::handler(&ledger, &ctx, naming()).unwrap();
        for _ in 0..failing {
            run = match run.resume(Ok(())).unwrap() {
                Progress::Pending(next) => next,
                Progress::Complete(_) => panic!("completed early"),
            };
        }
        let ended = run.resume(Err(ProgramError::Custom(failing as u32))).unwrap_err();
        assert_eq!(ended, StakePoolError::CrossCallFailure(ProgramError::Custom(failing as u32)));
        assert_eq!(ledger, before);
        // the operation can be submitted again
        assert!(init_entry::handler(&ledger, &ctx, naming()).is_ok());
    }
}

#[test]
fn run_completes_after_six_calls() {
    let (ledger, pool) = pool_ledger("X");
    let ctx = accounts(pool.address, addr(50), no_metadata());
    let mut run = init_entry::handler(&ledger, &ctx, naming()).unwrap();
    for _ in 0..5 {
        run = match run.resume(Ok(())).unwrap() {
            Progress::Pending(next) => next,
            Progress::Complete(_) => panic!("completed early"),
        };
    }
    assert!(matches!(run.pending(), CrossCall::CreateMintManager { .. }));
    assert!(matches!(run.resume(Ok(())).unwrap(), Progress::Complete(_)));
}

#[test]
fn plan_from_given_addresses() {
    let (ledger, pool) = pool_ledger("X");
    let ctx = accounts(pool.address, addr(50), no_metadata());
    let entry = Derived { address: addr(60), bump: 250 };
    let holding = Derived { address: addr(61), bump: 249 };
    let run = init_entry::plan(
        &ledger,
        &ctx,
        naming(),
        Some(entry),
        Some(holding),
        "MINT",
        Original::Stored("u\0".to_string()),
    )
    .unwrap();
    assert_eq!(run.entry_address(), addr(60));
    assert_eq!(run.entry().bump, 250);
    match run.pending() {
        CrossCall::CreateAccount { account, space, .. } => {
            assert_eq!(*account, addr(100));
            assert_eq!(*space, 82);
        }
        other => panic!("not an account creation: {:?}", other),
    }
    let mut ledger = ledger;
    let (calls, _) = complete(&mut ledger, run);
    assert_eq!(metadata_link(&calls), "https://api.cardinal.so/metadata/MINT?text=X&uri=u");
    assert_eq!(ledger.stake_entry(&addr(60)).unwrap().original_mint, addr(50));
}

#[test]
fn plan_rejections_in_their_order() {
    let (ledger, pool) = pool_ledger("X");
    let ctx = accounts(pool.address, addr(50), no_metadata());
    let entry = Some(Derived { address: addr(60), bump: 250 });
    let holding = Some(Derived { address: addr(61), bump: 249 });
    let unreadable = || Original::Unreadable(ProgramError::InvalidAccountData);
    let mut stranger = accounts(pool.address, addr(50), no_metadata());
    stranger.payer = addr(66);

    let kind = |r: Result<EntryRun, StakePoolError>| r.unwrap_err().kind();
    assert_eq!(
        kind(init_entry::plan(&ledger, &stranger, naming(), None, None, "M", unreadable())),
        ErrorKind::NoDerivedAddress
    );
    let taken = Some(pool);
    assert_eq!(
        kind(init_entry::plan(&ledger, &stranger, naming(), taken, None, "M", unreadable())),
        ErrorKind::AddressCollision
    );
    assert_eq!(
        kind(init_entry::plan(&ledger, &stranger, naming(), entry, None, "M", unreadable())),
        ErrorKind::AuthorizationFailure
    );
    assert_eq!(
        kind(init_entry::plan(&ledger, &ctx, naming(), entry, None, "M", unreadable())),
        ErrorKind::NoDerivedAddress
    );
    assert_eq!(
        init_entry::plan(&ledger, &ctx, naming(), entry, holding, "M", unreadable()).unwrap_err(),
        StakePoolError::CrossCallFailure(ProgramError::InvalidAccountData)
    );
    assert!(init_entry::plan(&ledger, &ctx, naming(), entry, holding, "M", Original::Absent).is_ok());
}

#[test]
fn account_creation_is_encoded_for_the_system_program() {
    let (ledger, pool) = pool_ledger("X");
    let ctx = accounts(pool.address, addr(50), no_metadata());
    let run = init_entry::handler(&ledger, &ctx, naming()).unwrap();
    match run.pending() {
        CrossCall::CreateAccount { program, instruction, .. } => {
            assert_eq!(*program, addr(0));
            assert_eq!(instruction.program, addr(0));
            assert_eq!(
                instruction.accounts,
                vec![
                    AccountMeta { address: authority(), is_signer: true, is_writable: true },
                    AccountMeta { address: addr(100), is_signer: true, is_writable: true },
                ]
            );
            let mut data = vec![0u8, 0, 0, 0];
            data.extend_from_slice(&1_461_600u64.to_le_bytes());
            data.extend_from_slice(&82u64.to_le_bytes());
            data.extend_from_slice(&spl_token::id().to_bytes());
            assert_eq!(instruction.data, data);
        }
        other => panic!("not an account creation: {:?}", other),
    }
}

#[test]
fn metadata_is_encoded_for_the_metadata_program() {
    let (mut ledger, pool) = pool_ledger("X");
    let ctx = accounts(pool.address, addr(50), stored_metadata("https://arweave.net/abc\0\0"));
    let run = init_entry::handler(&ledger, &ctx, naming()).unwrap();
    let entry = run.entry_address();
    let (calls, _) = complete(&mut ledger, run);
    match &calls[3] {
        CrossCall::CreateMetadata { instruction, .. } => {
            assert_eq!(instruction.program, metadata_program());
            assert_eq!(
                instruction.accounts,
                vec![
                    AccountMeta { address: addr(102), is_signer: false, is_writable: true },
                    AccountMeta { address: addr(100), is_signer: false, is_writable: false },
                    AccountMeta { address: pool.address, is_signer: true, is_writable: false },
                    AccountMeta { address: authority(), is_signer: true, is_writable: true },
                    AccountMeta { address: pool.address, is_signer: true, is_writable: false },
                    AccountMeta { address: addr(0), is_signer: false, is_writable: false },
                ]
            );
            match MetadataInstruction::try_from_slice(&instruction.data).unwrap() {
                MetadataInstruction::CreateMetadataAccountV2(args) => {
                    assert_eq!(args.data.name, "Staked NFT");
                    assert_eq!(args.data.symbol, "sNFT");
                    assert_eq!(
                        args.data.uri,
                        format!(
                            "https://api.cardinal.so/metadata/{}?text=X&uri=https://arweave.net/abc",
                            Pubkey::new_from_array([100; 32])
                        )
                    );
                    assert_eq!(args.data.seller_fee_basis_points, 0);
                    assert!(args.is_mutable);
                    let creators = args.data.creators.unwrap();
                    assert_eq!(creators.len(), 2);
                    assert_eq!(creators[0].address, key(&pool.address));
                    assert!(creators[0].verified);
                    assert_eq!(creators[0].share, 50);
                    assert_eq!(creators[1].address, key(&entry));
                    assert!(!creators[1].verified);
                    assert_eq!(creators[1].share, 50);
                    assert!(args.data.collection.is_none());
                    assert!(args.data.uses.is_none());
                }
                _ => panic!("not a metadata creation"),
            }
        }
        other => panic!("not a metadata call: {:?}", other),
    }
}
