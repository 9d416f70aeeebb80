use cardinal_stake_pool::address::{
    holding_address, identifier_address, identifier_tag_bytes, stake_entry_address,
    stake_entry_tag_bytes, stake_pool_address, stake_pool_tag_bytes, u64_le_bytes, Address,
    Derived,
};
use cardinal_stake_pool::calls::{mint_account_len, SigningProof};
use solana_program::pubkey::Pubkey;

fn addr(fill: u8) -> Address {
    Address::from_bytes([fill; 32])
}

fn key(a: &Address) -> Pubkey {
    Pubkey::new_from_array(a.bytes)
}

#[test]
fn tags_are_the_ascii_names() {
    assert_eq!(identifier_tag_bytes(), b"identifier".to_vec());
    assert_eq!(stake_pool_tag_bytes(), b"stake-pool".to_vec());
    assert_eq!(stake_entry_tag_bytes(), b"stake-entry".to_vec());
}

#[test]
fn u64_bytes_are_little_endian() {
    assert_eq!(u64_le_bytes(0x0102030405060708), vec![8u8, 7, 6, 5, 4, 3, 2, 1]);
    assert_eq!(u64_le_bytes(7), 7u64.to_le_bytes().to_vec());
    assert_eq!(u64_le_bytes(0), vec![0u8; 8]);
    assert_eq!(u64_le_bytes(u64::MAX), vec![255u8; 8]);
}

#[test]
fn same_compares_every_byte() {
    let a = addr(3);
    let mut bytes = [3u8; 32];
    assert!(a.same(&Address::from_bytes(bytes)));
    bytes[31] = 4;
    assert!(!a.same(&Address::from_bytes(bytes)));
    bytes[31] = 3;
    bytes[0] = 0;
    assert!(!a.same(&Address::from_bytes(bytes)));
}

#[test]
fn to_vec_gives_the_bytes() {
    let mut bytes = [0u8; 32];
    for (i, b) in bytes.iter_mut().enumerate() {
        *b = i as u8;
    }
    assert_eq!(Address::from_bytes(bytes).to_vec(), bytes.to_vec());
}

#[test]
fn text_is_base58() {
    assert_eq!(addr(0).to_text(), "11111111111111111111111111111111");
    let a = addr(200);
    assert_eq!(a.to_text(), key(&a).to_string());
    assert_ne!(a.to_text(), addr(201).to_text());
}

#[test]
fn pool_address_is_derived_from_tag_and_identifier() {
    let program = addr(9);
    let found = stake_pool_address(&program, 7).unwrap();
    let (want, bump) =
        Pubkey::find_program_address(&[b"stake-pool", &7u64.to_le_bytes()], &key(&program));
    assert_eq!(found, Derived { address: Address::from_bytes(want.to_bytes()), bump });
    let other = stake_pool_address(&program, 8).unwrap();
    assert_ne!(found.address, other.address);
    assert_ne!(found.address, program);
}

#[test]
fn identifier_address_is_derived_from_tag() {
    let program = addr(9);
    let found = identifier_address(&program).unwrap();
    let (want, bump) = Pubkey::find_program_address(&[b"identifier"], &key(&program));
    assert_eq!(found, Derived { address: Address::from_bytes(want.to_bytes()), bump });
    assert_ne!(found.address, identifier_address(&addr(10)).unwrap().address);
}

#[test]
fn entry_address_is_derived_from_pool_and_mint() {
    let program = addr(9);
    let pool = addr(1);
    let mint = addr(2);
    let found = stake_entry_address(&program, &pool, &mint).unwrap();
    let (want, bump) = Pubkey::find_program_address(
        &[b"stake-entry", &pool.bytes, &mint.bytes],
        &key(&program),
    );
    assert_eq!(found, Derived { address: Address::from_bytes(want.to_bytes()), bump });
    assert_eq!(found, stake_entry_address(&program, &pool, &mint).unwrap());
    assert_ne!(found.address, stake_entry_address(&program, &mint, &pool).unwrap().address);
}

#[test]
fn holding_address_is_the_associated_account() {
    let owner = addr(5);
    let mint = addr(6);
    let token_program = Address::from_bytes(spl_token::id().to_bytes());
    let associated = Address::from_bytes(anchor_spl::associated_token::ID.to_bytes());
    let found = holding_address(&associated, &token_program, &owner, &mint).unwrap();
    let want = anchor_spl::associated_token::get_associated_token_address(&key(&owner), &key(&mint));
    assert_eq!(found.address, Address::from_bytes(want.to_bytes()));
}

#[test]
fn signing_proof_opens_the_pool_address() {
    let program = addr(9);
    let pool = stake_pool_address(&program, 42).unwrap();
    let proof = SigningProof { pool: pool.address, identifier: 42, bump: pool.bump };
    let seeds = proof.signer_seeds();
    assert_eq!(seeds, vec![b"stake-pool".to_vec(), 42u64.to_le_bytes().to_vec(), vec![pool.bump]]);
    let parts: Vec<&[u8]> = seeds.iter().map(|s| s.as_slice()).collect();
    let opened = Pubkey::create_program_address(&parts, &key(&program)).unwrap();
    assert_eq!(Address::from_bytes(opened.to_bytes()), pool.address);
}

#[test]
fn mint_account_takes_82_bytes() {
    assert_eq!(mint_account_len(), 82);
}
