use vstd::prelude::*;

use crate::error::SolanaMarketplaceError;
use crate::state::{authority_matches, Identity, Item};

verus! {

/// The accounts of a stock update: the record and the signer asking for it.
pub struct UpdateQuantity {
    pub item: Item,
    pub authority: Identity,
}

/// What setting the stock to `quantity` does to `ctx`: the context afterwards,
/// or the error. The quantity is checked first, then the signer.
pub open spec fn update_outcome(ctx: UpdateQuantity, quantity: u64) -> Result<
    UpdateQuantity,
    SolanaMarketplaceError,
> {
    if quantity == 0 {
        Err(SolanaMarketplaceError::InvalidQuantity)
    } else if ctx.authority != ctx.item.authority {
        Err(SolanaMarketplaceError::UnauthorizedAccess)
    } else {
        Ok(
            UpdateQuantity {
                item: Item {
                    id: ctx.item.id,
                    name: ctx.item.name,
                    quantity,
                    price: ctx.item.price,
                    authority: ctx.item.authority,
                },
                authority: ctx.authority,
            },
        )
    }
}

/// Replaces the stock of `ctx.item` with `quantity` (not adding to it), when
/// `quantity` is positive and the signer is the record's authority. On failure
/// nothing changes.
pub fn handler(ctx: &mut UpdateQuantity, quantity: u64) -> (r: Result<(), SolanaMarketplaceError>)
    ensures
        match update_outcome(*old(ctx), quantity) {
            Ok(next) => r == Ok::<(), SolanaMarketplaceError>(()) && *final(ctx) == next,
            Err(e) => r == Err::<(), SolanaMarketplaceError>(e) && *final(ctx) == *old(ctx),
        },
{
    if quantity == 0 {
        return Err(SolanaMarketplaceError::InvalidQuantity);
    }
    if !authority_matches(&ctx.item.authority, &ctx.authority) {
        return Err(SolanaMarketplaceError::UnauthorizedAccess);
    }
    ctx.item.quantity = quantity;
    Ok(())
}

} // verus!
