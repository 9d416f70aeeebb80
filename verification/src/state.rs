//! The records that this program keeps on the ledger.

use vstd::prelude::*;
use vstd::utf8::encode_utf8;
use crate::address::Address;

verus! {

/// Bytes reserved on the ledger for a pool record. A pool that would need
/// more is rejected.
pub const STAKE_POOL_SIZE: usize = 1024;

/// The singleton counter of the pools ever created.
#[derive(Clone, Copy, Debug, PartialEq, Eq)]
pub struct Identifier {
    pub bump: u8,
    pub count: u64,
}

/// Anchors the receipt token of one staked asset under one pool.
#[derive(Clone, Copy, Debug, PartialEq, Eq)]
pub struct StakeEntry {
    pub bump: u8,
    pub pool: Address,
    pub original_mint: Address,
    pub receipt_mint: Address,
}

/// A pool: its authority, its eligibility filters and its staking policy.
#[derive(Clone, Debug, PartialEq, Eq)]
pub struct StakePool {
    pub bump: u8,
    pub identifier: u64,
    pub authority: Address,
    pub requires_creators: Vec<Address>,
    pub requires_collections: Vec<Address>,
    pub requires_authorization: bool,
    pub allowed_creators: Vec<Address>,
    pub allowed_collections: Vec<Address>,
    pub overlay_text: String,
    pub image_uri: String,
    pub reset_on_stake: bool,
    pub cooldown_seconds: Option<u32>,
    pub min_stake_seconds: Option<u32>,
    pub end_date: Option<i64>,
}

/// The mathematical content of a pool record.
pub struct StakePoolView {
    pub bump: u8,
    pub identifier: u64,
    pub authority: Address,
    pub requires_creators: Seq<Address>,
    pub requires_collections: Seq<Address>,
    pub requires_authorization: bool,
    pub allowed_creators: Seq<Address>,
    pub allowed_collections: Seq<Address>,
    pub overlay_text: Seq<char>,
    pub image_uri: Seq<char>,
    pub reset_on_stake: bool,
    pub cooldown_seconds: Option<u32>,
    pub min_stake_seconds: Option<u32>,
    pub end_date: Option<i64>,
}

impl View for StakePool {
    type V = StakePoolView;

    open spec fn view(&self) -> StakePoolView {
        StakePoolView {
            bump: self.bump,
            identifier: self.identifier,
            authority: self.authority,
            requires_creators: self.requires_creators@,
            requires_collections: self.requires_collections@,
            requires_authorization: self.requires_authorization,
            allowed_creators: self.allowed_creators@,
            allowed_collections: self.allowed_collections@,
            overlay_text: self.overlay_text@,
            image_uri: self.image_uri@,
            reset_on_stake: self.reset_on_stake,
            cooldown_seconds: self.cooldown_seconds,
            min_stake_seconds: self.min_stake_seconds,
            end_date: self.end_date,
        }
    }
}

/// Encoded size of a list of addresses: a four-byte count, then the addresses.
pub open spec fn list_len(list: Seq<Address>) -> nat {
    4 + 32 * list.len()
}

/// Encoded size of a text: a four-byte count, then its UTF-8 bytes.
pub open spec fn text_len(text: Seq<char>) -> nat {
    4 + encode_utf8(text).len()
}

/// Encoded size of an optional value of `width` bytes: a tag, then the value
/// if there is one.
pub open spec fn option_len(present: bool, width: nat) -> nat {
    if present {
        1 + width
    } else {
        1
    }
}

/// Encoded size of the fields of a pool that never vary in size: the record
/// tag (8), salt (1), sequence number (8), authority (32) and two flags.
pub open spec fn fixed_len() -> nat {
    51
}

impl StakePoolView {
    /// The bytes that the record occupies on the ledger.
    pub open spec fn encoded_len(self) -> nat {
        fixed_len() + list_len(self.requires_creators) + list_len(self.requires_collections)
            + list_len(self.allowed_creators) + list_len(self.allowed_collections) + text_len(
            self.overlay_text,
        ) + text_len(self.image_uri) + option_len(self.cooldown_seconds is Some, 4) + option_len(
            self.min_stake_seconds is Some,
            4,
        ) + option_len(self.end_date is Some, 8)
    }

    /// Whether the record fits into the space reserved for a pool.
    pub open spec fn fits(self) -> bool {
        self.encoded_len() <= STAKE_POOL_SIZE
    }
}

/// Adds the size of an address list to `total`, or reports that the sum
/// passes the reserved space.
fn add_list(total: usize, list: &Vec<Address>) -> (r: Option<usize>)
    requires
        total <= STAKE_POOL_SIZE,
    ensures
        r matches Some(n) ==> n == total + list_len(list@) && n <= STAKE_POOL_SIZE,
        r is None ==> total + list_len(list@) > STAKE_POOL_SIZE,
{
    let n: usize = list.len();
    if n > STAKE_POOL_SIZE / 32 {
        return None;
    }
    let size: usize = 4 + 32 * n;
    if size > STAKE_POOL_SIZE - total {
        None
    } else {
        Some(total + size)
    }
}

/// Adds the size of a text to `total`, or reports that the sum passes the
/// reserved space.
fn add_text(total: usize, text: &String) -> (r: Option<usize>)
    requires
        total <= STAKE_POOL_SIZE,
    ensures
        r matches Some(n) ==> n == total + text_len(text@) && n <= STAKE_POOL_SIZE,
        r is None ==> total + text_len(text@) > STAKE_POOL_SIZE,
{
    let n: usize = text.as_str().as_bytes().len();
    if n > STAKE_POOL_SIZE {
        return None;
    }
    let size: usize = 4 + n;
    if size > STAKE_POOL_SIZE - total {
        None
    } else {
        Some(total + size)
    }
}

/// Adds the size of an optional value to `total`, or reports that the sum
/// passes the reserved space.
fn add_option(total: usize, present: bool, width: usize) -> (r: Option<usize>)
    requires
        total <= STAKE_POOL_SIZE,
        width <= 8,
    ensures
        r matches Some(n) ==> n == total + option_len(present, width as nat) && n
            <= STAKE_POOL_SIZE,
        r is None ==> total + option_len(present, width as nat) > STAKE_POOL_SIZE,
{
    let size: usize = if present {
        1 + width
    } else {
        1
    };
    if size > STAKE_POOL_SIZE - total {
        None
    } else {
        Some(total + size)
    }
}

/// The variable parts of a pool record, by reference.
pub struct PoolParts<'a> {
    pub requires_creators: &'a Vec<Address>,
    pub requires_collections: &'a Vec<Address>,
    pub allowed_creators: &'a Vec<Address>,
    pub allowed_collections: &'a Vec<Address>,
    pub overlay_text: &'a String,
    pub image_uri: &'a String,
    pub cooldown_seconds: Option<u32>,
    pub min_stake_seconds: Option<u32>,
    pub end_date: Option<i64>,
}

impl<'a> PoolParts<'a> {
    /// The encoded size of a pool record with these parts.
    pub open spec fn encoded_len(self) -> nat {
        fixed_len() + list_len(self.requires_creators@) + list_len(self.requires_collections@)
            + list_len(self.allowed_creators@) + list_len(self.allowed_collections@) + text_len(
            self.overlay_text@,
        ) + text_len(self.image_uri@) + option_len(self.cooldown_seconds is Some, 4)
            + option_len(self.min_stake_seconds is Some, 4) + option_len(
            self.end_date is Some,
            8,
        )
    }

    /// Whether a pool record with these parts fits into the reserved space.
    pub fn fits(&self) -> (r: bool)
        ensures
            r == (self.encoded_len() <= STAKE_POOL_SIZE),
    {
        let total: usize = 51;
        let total: usize = match add_list(total, self.requires_creators) {
            Some(n) => n,
            None => { return false; },
        };
        let total: usize = match add_list(total, self.requires_collections) {
            Some(n) => n,
            None => { return false; },
        };
        let total: usize = match add_list(total, self.allowed_creators) {
            Some(n) => n,
            None => { return false; },
        };
        let total: usize = match add_list(total, self.allowed_collections) {
            Some(n) => n,
            None => { return false; },
        };
        let total: usize = match add_text(total, self.overlay_text) {
            Some(n) => n,
            None => { return false; },
        };
        let total: usize = match add_text(total, self.image_uri) {
            Some(n) => n,
            None => { return false; },
        };
        let total: usize = match add_option(total, self.cooldown_seconds.is_some(), 4) {
            Some(n) => n,
            None => { return false; },
        };
        let total: usize = match add_option(total, self.min_stake_seconds.is_some(), 4) {
            Some(n) => n,
            None => { return false; },
        };
        match add_option(total, self.end_date.is_some(), 8) {
            Some(_) => true,
            None => false,
        }
    }
}

impl StakePool {
    /// The variable parts of this record.
    pub fn parts(&self) -> (p: PoolParts<'_>)
        ensures
            p.encoded_len() == self@.encoded_len(),
            p.requires_creators@ == self@.requires_creators,
            p.requires_collections@ == self@.requires_collections,
            p.allowed_creators@ == self@.allowed_creators,
            p.allowed_collections@ == self@.allowed_collections,
            p.overlay_text@ == self@.overlay_text,
            p.image_uri@ == self@.image_uri,
            p.cooldown_seconds == self@.cooldown_seconds,
            p.min_stake_seconds == self@.min_stake_seconds,
            p.end_date == self@.end_date,
    {
        PoolParts {
            requires_creators: &self.requires_creators,
            requires_collections: &self.requires_collections,
            allowed_creators: &self.allowed_creators,
            allowed_collections: &self.allowed_collections,
            overlay_text: &self.overlay_text,
            image_uri: &self.image_uri,
            cooldown_seconds: self.cooldown_seconds,
            min_stake_seconds: self.min_stake_seconds,
            end_date: self.end_date,
        }
    }

    /// Whether this record fits into the space reserved for a pool.
    pub fn fits(&self) -> (r: bool)
        ensures
            r == self@.fits(),
    {
        self.parts().fits()
    }
}

} // verus!
