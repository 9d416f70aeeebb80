//! Creating a pool.
//!
//! Anyone may create a pool; the authority of the new pool is named in the
//! request and need not be the signer. The pool lives at the address derived
//! from its sequence number, so a sequence number can be used once. Creating
//! a pool advances the identifier counter, which is created on first use.

use vstd::prelude::*;
use crate::address::Address;
use crate::address::Derived;
use crate::address::derivation;
use crate::address::identifier_address;
use crate::address::identifier_seeds;
use crate::address::stake_pool_address;
use crate::address::stake_pool_seeds;
use crate::error::ErrorKind;
use crate::error::StakePoolError;
use crate::ledger::Ledger;
use crate::ledger::Record;
use crate::ledger::RecordView;
use crate::ledger::canonical_map;
use crate::ledger::lemma_canonical_insert;
use crate::state::Identifier;
use crate::state::StakePool;
use crate::state::StakePoolView;

verus! {

/// What the creator of a pool chooses.
#[derive(Clone, Debug, PartialEq, Eq)]
pub struct InitPoolIx {
    pub identifier: u64,
    pub overlay_text: String,
    pub image_uri: String,
    pub allowed_collections: Vec<Address>,
    pub allowed_creators: Vec<Address>,
    pub authority: Address,
}

/// The accounts of a pool creation: the signer, who pays for it.
#[derive(Clone, Copy, Debug, PartialEq, Eq)]
pub struct InitPoolCtx {
    pub payer: Address,
}

/// The record of a pool as it is created, with salt `bump`.
pub open spec fn new_pool(ix: InitPoolIx, bump: u8) -> StakePoolView {
    StakePoolView {
        bump,
        identifier: ix.identifier,
        authority: ix.authority,
        requires_creators: Seq::empty(),
        requires_collections: Seq::empty(),
        requires_authorization: false,
        allowed_creators: ix.allowed_creators@,
        allowed_collections: ix.allowed_collections@,
        overlay_text: ix.overlay_text@,
        image_uri: ix.image_uri@,
        reset_on_stake: false,
        cooldown_seconds: None,
        min_stake_seconds: None,
        end_date: None,
    }
}

/// The number of pools that the counter at `counter` has seen; none, where no
/// counter lives yet.
pub open spec fn pools_created(ledger: Map<Address, RecordView>, counter: Address) -> u64 {
    if ledger.contains_key(counter) && ledger[counter] is Identifier {
        ledger[counter]->Identifier_0.count
    } else {
        0
    }
}

/// What the creation of a pool does to a ledger, where `pool` and `counter`
/// are the derived addresses of the pool and of the identifier counter: the
/// ledger after it, or the reason for which it is rejected.
pub open spec fn create_pool(
    ledger: Map<Address, RecordView>,
    pool: Option<Derived>,
    counter: Option<Derived>,
    ix: InitPoolIx,
) -> Result<Map<Address, RecordView>, ErrorKind> {
    if pool is None {
        Err(ErrorKind::NoDerivedAddress)
    } else if ledger.contains_key(pool->0.address) {
        Err(ErrorKind::AddressCollision)
    } else if counter is None {
        Err(ErrorKind::NoDerivedAddress)
    } else if counter->0.address == pool->0.address || (ledger.contains_key(counter->0.address)
        && !(ledger[counter->0.address] is Identifier)) {
        Err(ErrorKind::AddressCollision)
    } else if !new_pool(ix, pool->0.bump).fits() || pools_created(ledger, counter->0.address)
        == u64::MAX {
        Err(ErrorKind::CapacityExceeded)
    } else {
        Ok(
            ledger.insert(
                pool->0.address,
                RecordView::StakePool(new_pool(ix, pool->0.bump)),
            ).insert(
                counter->0.address,
                RecordView::Identifier(
                    Identifier {
                        bump: counter->0.bump,
                        count: (pools_created(ledger, counter->0.address) + 1) as u64,
                    },
                ),
            ),
        )
    }
}

/// A sequence number is used once: where a pool with the sequence number
/// of `ix` lives on a canonical ledger, the creation is rejected for the
/// collision of addresses.
pub proof fn lemma_identifier_used_once(
    program: Address,
    ledger: Map<Address, RecordView>,
    existing: Address,
    counter: Option<Derived>,
    ix: InitPoolIx,
)
    requires
        canonical_map(program, ledger),
        ledger.contains_key(existing),
        ledger[existing] matches RecordView::StakePool(p) && p.identifier == ix.identifier,
    ensures
        create_pool(
            ledger,
            derivation(stake_pool_seeds(ix.identifier), program),
            counter,
            ix,
        ) == Err::<Map<Address, RecordView>, ErrorKind>(ErrorKind::AddressCollision),
{
}

/// A pool creation that goes through advances the count of pools by exactly
/// one, adds the pool as the request describes it, and removes no record.
pub proof fn lemma_creation_counts_once(
    ledger: Map<Address, RecordView>,
    pool: Option<Derived>,
    counter: Option<Derived>,
    ix: InitPoolIx,
)
    requires
        create_pool(ledger, pool, counter, ix) is Ok,
    ensures
        pool is Some && counter is Some,
        pools_created(create_pool(ledger, pool, counter, ix)->Ok_0, counter->0.address)
            == pools_created(ledger, counter->0.address) + 1,
        create_pool(ledger, pool, counter, ix)->Ok_0[pool->0.address] == RecordView::StakePool(
            new_pool(ix, pool->0.bump),
        ),
        forall|a: Address|
            ledger.contains_key(a) ==> #[trigger] create_pool(
                ledger,
                pool,
                counter,
                ix,
            )->Ok_0.contains_key(a),
        forall|a: Address|
            ledger.contains_key(a) && a != counter->0.address ==> #[trigger] create_pool(
                ledger,
                pool,
                counter,
                ix,
            )->Ok_0[a] == ledger[a],
{
}

/// Creates the pool of `ix` at `pool` and advances the counter at `counter`,
/// creating it if it is not there. A rejected creation leaves the ledger
/// untouched.
pub fn create_at(
    ledger: &mut Ledger,
    pool: Option<Derived>,
    counter: Option<Derived>,
    ix: InitPoolIx,
) -> (r: Result<(), StakePoolError>)
    requires
        old(ledger).wf(),
    ensures
        final(ledger).wf(),
        final(ledger).program() == old(ledger).program(),
        match create_pool(old(ledger)@, pool, counter, ix) {
            Ok(after) => r is Ok && final(ledger)@ == after,
            Err(kind) => r is Err && r->Err_0.kind() == kind && *final(ledger) == *old(ledger),
        },
        old(ledger).canonical() && pool == derivation(
            stake_pool_seeds(ix.identifier),
            old(ledger).program(),
        ) && counter == derivation(identifier_seeds(), old(ledger).program())
            ==> final(ledger).canonical(),
{
    let pool = match pool {
        Some(pool) => pool,
        None => {
            return Err(StakePoolError::NoDerivedAddress);
        },
    };
    if ledger.is_occupied(&pool.address) {
        return Err(StakePoolError::AddressCollision);
    }
    let counter = match counter {
        Some(counter) => counter,
        None => {
            return Err(StakePoolError::NoDerivedAddress);
        },
    };
    if counter.address.same(&pool.address) {
        return Err(StakePoolError::AddressCollision);
    }
    let created: u64 = match ledger.record(&counter.address) {
        Some(Record::Identifier(current)) => current.count,
        Some(_) => {
            return Err(StakePoolError::AddressCollision);
        },
        None => 0,
    };
    let record = StakePool {
        bump: pool.bump,
        identifier: ix.identifier,
        authority: ix.authority,
        requires_creators: Vec::new(),
        requires_collections: Vec::new(),
        requires_authorization: false,
        allowed_creators: ix.allowed_creators,
        allowed_collections: ix.allowed_collections,
        overlay_text: ix.overlay_text,
        image_uri: ix.image_uri,
        reset_on_stake: false,
        cooldown_seconds: None,
        min_stake_seconds: None,
        end_date: None,
    };
    assert(record@ == new_pool(ix, pool.bump));
    if !record.fits() || created == u64::MAX {
        return Err(StakePoolError::CapacityExceeded);
    }
    let counted = Identifier { bump: counter.bump, count: created + 1 };
    let ghost pool_view = RecordView::StakePool(record@);
    let ghost before = ledger@;
    ledger.put(pool.address, Record::StakePool(record));
    let ghost with_pool = ledger@;
    if ledger.is_occupied(&counter.address) {
        let _ = ledger.take(&counter.address);
    }
    ledger.put(counter.address, Record::Identifier(counted));
    proof {
        let after = before.insert(pool.address, pool_view).insert(
            counter.address,
            RecordView::Identifier(counted),
        );
        assert(ledger@ =~= after);
        if old(ledger).canonical() && Some(pool) == derivation(
            stake_pool_seeds(ix.identifier),
            old(ledger).program(),
        ) && Some(counter) == derivation(identifier_seeds(), old(ledger).program()) {
            lemma_canonical_insert(ledger.program(), before, pool.address, pool_view);
            lemma_canonical_insert(
                ledger.program(),
                with_pool,
                counter.address,
                RecordView::Identifier(counted),
            );
        }
    }
    Ok(())
}

/// Creates the pool of `ix` at the address derived from its sequence number
/// and advances the identifier counter. A rejected creation leaves the
/// ledger untouched.
pub fn handler(ledger: &mut Ledger, ctx: &InitPoolCtx, ix: InitPoolIx) -> (r: Result<
    (),
    StakePoolError,
>)
    requires
        old(ledger).wf(),
    ensures
        final(ledger).wf(),
        final(ledger).program() == old(ledger).program(),
        old(ledger).canonical() ==> final(ledger).canonical(),
        match create_pool(
            old(ledger)@,
            derivation(stake_pool_seeds(ix.identifier), old(ledger).program()),
            derivation(identifier_seeds(), old(ledger).program()),
            ix,
        ) {
            Ok(after) => r is Ok && final(ledger)@ == after,
            Err(kind) => r is Err && r->Err_0.kind() == kind && *final(ledger) == *old(ledger),
        },
{
    let program = ledger.program_address();
    let pool = stake_pool_address(&program, ix.identifier);
    let counter = identifier_address(&program);
    create_at(ledger, pool, counter, ix)
}

} // verus!
