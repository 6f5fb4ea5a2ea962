use vstd::prelude::*;

use crate::error::SolanaMarketplaceError;
use crate::state::{Identity, Item, authority_matches};

verus! {

/// The accounts of a deletion: the storage slot of the record and the signer
/// asking for it. Reclaiming the slot's deposit is the storage's own business.
pub struct DeleteItem {
    pub item: Option<Item>,
    pub authority: Identity,
}

/// What deleting the record in `ctx` does: the context afterwards, with the
/// slot empty, or the error when the signer is not the record's authority.
pub open spec fn delete_outcome(ctx: DeleteItem) -> Result<DeleteItem, SolanaMarketplaceError>
    recommends
        ctx.item is Some,
{
    if ctx.authority != ctx.item->Some_0.authority {
        Err(SolanaMarketplaceError::UnauthorizedAccess)
    } else {
        Ok(DeleteItem { item: None, authority: ctx.authority })
    }
}

/// Removes the record in `ctx.item` when the signer is its authority. On
/// failure the record stays, unchanged.
pub fn handler(ctx: &mut DeleteItem) -> (r: Result<(), SolanaMarketplaceError>)
    requires
        old(ctx).item is Some,
    ensures
        match delete_outcome(*old(ctx)) {
            Ok(next) => r == Ok::<(), SolanaMarketplaceError>(()) && *final(ctx) == next,
            Err(e) => r == Err::<(), SolanaMarketplaceError>(e) && *final(ctx) == *old(ctx),
        },
{
    let allowed = match &ctx.item {
        Some(item) => authority_matches(&item.authority, &ctx.authority),
        None => false,
    };
    if !allowed {
        return Err(SolanaMarketplaceError::UnauthorizedAccess);
    }
    ctx.item = None;
    Ok(())
}

} // verus!
