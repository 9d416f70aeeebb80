//! Changing the policy of a pool.
//!
//! The update is a partial merge: every field of the request is optional, a
//! field that is given replaces the pool's value, and a field that is left
//! out keeps it. The optional policy values (cooldown, minimum stake time,
//! end date) follow the same rule, so an update can set them but not clear
//! them. The sequence number, the salt and the allowed lists of a pool never
//! change.

use vstd::prelude::*;
use vstd::pervasive::unreached;
use crate::address::Address;
use crate::error::ErrorKind;
use crate::error::StakePoolError;
use crate::ledger::Ledger;
use crate::ledger::lemma_canonical_insert;
use crate::ledger::Record;
use crate::ledger::RecordView;
use crate::state::PoolParts;
use crate::state::StakePool;
use crate::state::StakePoolView;

verus! {

/// The fields of a pool that its authority may change. `None` keeps the
/// current value.
#[derive(Clone, Debug, PartialEq, Eq)]
pub struct UpdatePoolIx {
    pub overlay_text: Option<String>,
    pub image_uri: Option<String>,
    pub requires_collections: Option<Vec<Address>>,
    pub requires_creators: Option<Vec<Address>>,
    pub requires_authorization: Option<bool>,
    pub authority: Option<Address>,
    pub reset_on_stake: Option<bool>,
    pub cooldown_seconds: Option<u32>,
    pub min_stake_seconds: Option<u32>,
    pub end_date: Option<i64>,
}

/// The accounts of an update: the pool and the signer.
#[derive(Clone, Copy, Debug, PartialEq, Eq)]
pub struct UpdatePoolCtx {
    pub stake_pool: Address,
    pub payer: Address,
}

/// The pool after the merge of `ix` into `pool`.
pub open spec fn merged(pool: StakePoolView, ix: UpdatePoolIx) -> StakePoolView {
    StakePoolView {
        bump: pool.bump,
        identifier: pool.identifier,
        authority: match ix.authority {
            Some(a) => a,
            None => pool.authority,
        },
        requires_creators: match ix.requires_creators {
            Some(v) => v@,
            None => pool.requires_creators,
        },
        requires_collections: match ix.requires_collections {
            Some(v) => v@,
            None => pool.requires_collections,
        },
        requires_authorization: match ix.requires_authorization {
            Some(b) => b,
            None => pool.requires_authorization,
        },
        allowed_creators: pool.allowed_creators,
        allowed_collections: pool.allowed_collections,
        overlay_text: match ix.overlay_text {
            Some(t) => t@,
            None => pool.overlay_text,
        },
        image_uri: match ix.image_uri {
            Some(t) => t@,
            None => pool.image_uri,
        },
        reset_on_stake: match ix.reset_on_stake {
            Some(b) => b,
            None => pool.reset_on_stake,
        },
        cooldown_seconds: match ix.cooldown_seconds {
            Some(s) => Some(s),
            None => pool.cooldown_seconds,
        },
        min_stake_seconds: match ix.min_stake_seconds {
            Some(s) => Some(s),
            None => pool.min_stake_seconds,
        },
        end_date: match ix.end_date {
            Some(d) => Some(d),
            None => pool.end_date,
        },
    }
}

/// Whether `signer` is the authority of a pool that lives at `pool`. An
/// address without a pool has no authority.
pub open spec fn is_authority(ledger: Map<Address, RecordView>, pool: Address, signer: Address) -> bool {
    ledger.contains_key(pool) && (ledger[pool] matches RecordView::StakePool(p) && p.authority
        == signer)
}

/// The pool record at `pool`.
pub open spec fn pool_at(ledger: Map<Address, RecordView>, pool: Address) -> StakePoolView {
    ledger[pool]->StakePool_0
}

/// What an update does to a ledger: the ledger after it, or the reason for
/// which it is rejected.
pub open spec fn update_pool(
    ledger: Map<Address, RecordView>,
    ctx: UpdatePoolCtx,
    ix: UpdatePoolIx,
) -> Result<Map<Address, RecordView>, ErrorKind> {
    if !is_authority(ledger, ctx.stake_pool, ctx.payer) {
        Err(ErrorKind::AuthorizationFailure)
    } else if !merged(pool_at(ledger, ctx.stake_pool), ix).fits() {
        Err(ErrorKind::CapacityExceeded)
    } else {
        Ok(
            ledger.insert(
                ctx.stake_pool,
                RecordView::StakePool(merged(pool_at(ledger, ctx.stake_pool), ix)),
            ),
        )
    }
}

/// Only the authority of a pool updates it: for any other signer the update
/// is rejected for want of authorization.
pub proof fn lemma_only_authority_updates(
    ledger: Map<Address, RecordView>,
    ctx: UpdatePoolCtx,
    ix: UpdatePoolIx,
)
    requires
        !(ledger.contains_key(ctx.stake_pool) && ledger[ctx.stake_pool] is StakePool && pool_at(
            ledger,
            ctx.stake_pool,
        ).authority == ctx.payer),
    ensures
        update_pool(ledger, ctx, ix) == Err::<Map<Address, RecordView>, ErrorKind>(
            ErrorKind::AuthorizationFailure,
        ),
{
}

/// An update that goes through changes the one pool and nothing else, and
/// keeps the pool's sequence number, salt and allowed lists. A field that
/// the request leaves out keeps its value.
pub proof fn lemma_update_keeps_identity(
    ledger: Map<Address, RecordView>,
    ctx: UpdatePoolCtx,
    ix: UpdatePoolIx,
)
    requires
        update_pool(ledger, ctx, ix) is Ok,
    ensures
        update_pool(ledger, ctx, ix)->Ok_0.dom() == ledger.dom(),
        forall|a: Address|
            ledger.contains_key(a) && a != ctx.stake_pool ==> #[trigger] update_pool(
                ledger,
                ctx,
                ix,
            )->Ok_0[a] == ledger[a],
        pool_at(update_pool(ledger, ctx, ix)->Ok_0, ctx.stake_pool).identifier == pool_at(
            ledger,
            ctx.stake_pool,
        ).identifier,
        pool_at(update_pool(ledger, ctx, ix)->Ok_0, ctx.stake_pool).bump == pool_at(
            ledger,
            ctx.stake_pool,
        ).bump,
        pool_at(update_pool(ledger, ctx, ix)->Ok_0, ctx.stake_pool).allowed_creators == pool_at(
            ledger,
            ctx.stake_pool,
        ).allowed_creators,
        pool_at(update_pool(ledger, ctx, ix)->Ok_0, ctx.stake_pool).allowed_collections
            == pool_at(ledger, ctx.stake_pool).allowed_collections,
        ix.overlay_text is None && ix.image_uri is None && ix.requires_collections is None
            && ix.requires_creators is None && ix.requires_authorization is None && ix.authority
            is None && ix.reset_on_stake is None && ix.cooldown_seconds is None
            && ix.min_stake_seconds is None && ix.end_date is None ==> update_pool(
            ledger,
            ctx,
            ix,
        )->Ok_0 == ledger,
{
    let after = update_pool(ledger, ctx, ix)->Ok_0;
    assert(after.dom() =~= ledger.dom());
    if ix.overlay_text is None && ix.image_uri is None && ix.requires_collections is None
        && ix.requires_creators is None && ix.requires_authorization is None && ix.authority
        is None && ix.reset_on_stake is None && ix.cooldown_seconds is None
        && ix.min_stake_seconds is None && ix.end_date is None {
        assert(after =~= ledger);
    }
}

/// Whether the pool would still fit into its reserved space after the merge.
pub fn merged_fits(pool: &StakePool, ix: &UpdatePoolIx) -> (r: bool)
    ensures
        r == merged(pool@, *ix).fits(),
{
    let parts = PoolParts {
        requires_creators: match &ix.requires_creators {
            Some(v) => v,
            None => &pool.requires_creators,
        },
        requires_collections: match &ix.requires_collections {
            Some(v) => v,
            None => &pool.requires_collections,
        },
        allowed_creators: &pool.allowed_creators,
        allowed_collections: &pool.allowed_collections,
        overlay_text: match &ix.overlay_text {
            Some(t) => t,
            None => &pool.overlay_text,
        },
        image_uri: match &ix.image_uri {
            Some(t) => t,
            None => &pool.image_uri,
        },
        cooldown_seconds: match ix.cooldown_seconds {
            Some(s) => Some(s),
            None => pool.cooldown_seconds,
        },
        min_stake_seconds: match ix.min_stake_seconds {
            Some(s) => Some(s),
            None => pool.min_stake_seconds,
        },
        end_date: match ix.end_date {
            Some(d) => Some(d),
            None => pool.end_date,
        },
    };
    assert(parts.encoded_len() == merged(pool@, *ix).encoded_len());
    parts.fits()
}

/// The pool with the given fields of `ix` in place of its own.
pub fn merge(pool: StakePool, ix: UpdatePoolIx) -> (next: StakePool)
    ensures
        next@ == merged(pool@, ix),
{
    StakePool {
        bump: pool.bump,
        identifier: pool.identifier,
        authority: match ix.authority {
            Some(a) => a,
            None => pool.authority,
        },
        requires_creators: match ix.requires_creators {
            Some(v) => v,
            None => pool.requires_creators,
        },
        requires_collections: match ix.requires_collections {
            Some(v) => v,
            None => pool.requires_collections,
        },
        requires_authorization: match ix.requires_authorization {
            Some(b) => b,
            None => pool.requires_authorization,
        },
        allowed_creators: pool.allowed_creators,
        allowed_collections: pool.allowed_collections,
        overlay_text: match ix.overlay_text {
            Some(t) => t,
            None => pool.overlay_text,
        },
        image_uri: match ix.image_uri {
            Some(t) => t,
            None => pool.image_uri,
        },
        reset_on_stake: match ix.reset_on_stake {
            Some(b) => b,
            None => pool.reset_on_stake,
        },
        cooldown_seconds: match ix.cooldown_seconds {
            Some(s) => Some(s),
            None => pool.cooldown_seconds,
        },
        min_stake_seconds: match ix.min_stake_seconds {
            Some(s) => Some(s),
            None => pool.min_stake_seconds,
        },
        end_date: match ix.end_date {
            Some(d) => Some(d),
            None => pool.end_date,
        },
    }
}

/// Merges `ix` into the pool at `ctx.stake_pool`, for its authority. A
/// rejected update leaves the ledger untouched.
pub fn handler(ledger: &mut Ledger, ctx: &UpdatePoolCtx, ix: UpdatePoolIx) -> (r: Result<
    (),
    StakePoolError,
>)
    requires
        old(ledger).wf(),
    ensures
        final(ledger).wf(),
        final(ledger).program() == old(ledger).program(),
        old(ledger).canonical() ==> final(ledger).canonical(),
        match update_pool(old(ledger)@, *ctx, ix) {
            Ok(after) => r is Ok && final(ledger)@ == after,
            Err(kind) => r is Err && r->Err_0.kind() == kind && *final(ledger) == *old(ledger),
        },
{
    let current = match ledger.stake_pool(&ctx.stake_pool) {
        Some(pool) => pool,
        None => {
            return Err(StakePoolError::AuthorizationFailure);
        },
    };
    if !current.authority.same(&ctx.payer) {
        return Err(StakePoolError::AuthorizationFailure);
    }
    if !merged_fits(current, &ix) {
        return Err(StakePoolError::CapacityExceeded);
    }
    let pool = match ledger.take(&ctx.stake_pool) {
        Record::StakePool(pool) => pool,
        _ => unreached(),
    };
    let next = merge(pool, ix);
    let ghost after = RecordView::StakePool(next@);
    ledger.put(ctx.stake_pool, Record::StakePool(next));
    proof {
        assert(ledger@ =~= old(ledger)@.insert(ctx.stake_pool, after));
        if old(ledger).canonical() {
            assert(old(ledger)@.contains_key(ctx.stake_pool));
            lemma_canonical_insert(ledger.program(), old(ledger)@, ctx.stake_pool, after);
        }
    }
    Ok(())
}

} // verus!
