use vstd::prelude::*;

use crate::error::SolanaMarketplaceError;
use crate::state::{Identity, Item};

verus! {

/// The accounts of a creation: the signer, who becomes the authority, and the
/// storage slot the new record goes into (`None` while it holds no record).
pub struct CreateItem {
    pub authority: Identity,
    pub item: Option<Item>,
}

/// What creating a record does to `ctx`: the context afterwards, or the error.
/// The price is checked first, then the quantity; any signer may create.
pub open spec fn create_outcome(
    ctx: CreateItem,
    id: u64,
    name: String,
    quantity: u64,
    price: u64,
) -> Result<CreateItem, SolanaMarketplaceError> {
    if price == 0 {
        Err(SolanaMarketplaceError::InvalidPrice)
    } else if quantity == 0 {
        Err(SolanaMarketplaceError::InvalidQuantity)
    } else {
        Ok(
            CreateItem {
                authority: ctx.authority,
                item: Some(Item { id, name, quantity, price, authority: ctx.authority }),
            },
        )
    }
}

/// Fills `ctx.item` with a new record of the given fields whose authority is
/// the signer, when `price` and `quantity` are positive. On failure nothing
/// changes.
pub fn handler(
    ctx: &mut CreateItem,
    id: u64,
    name: String,
    quantity: u64,
    price: u64,
) -> (r: Result<(), SolanaMarketplaceError>)
    ensures
        match create_outcome(*old(ctx), id, name, quantity, price) {
            Ok(next) => r == Ok::<(), SolanaMarketplaceError>(()) && *final(ctx) == next,
            Err(e) => r == Err::<(), SolanaMarketplaceError>(e) && *final(ctx) == *old(ctx),
        },
{
    if price == 0 {
        return Err(SolanaMarketplaceError::InvalidPrice);
    }
    if quantity == 0 {
        return Err(SolanaMarketplaceError::InvalidQuantity);
    }
    ctx.item = Some(Item { id, name, quantity, price, authority: ctx.authority });
    Ok(())
}

} // verus!
