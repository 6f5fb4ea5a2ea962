use vstd::prelude::*;

use crate::error::SolanaMarketplaceError;
use crate::state::{authority_matches, Identity, Item};

verus! {

/// The accounts of a purchase: the record bought from, the paying buyer, and
/// the identity that is to receive the payment.
pub struct PurchaseItem {
    pub item: Item,
    pub buyer: Identity,
    pub item_authority: Identity,
}

/// An order to the payment gateway: move `lamports` from `from` to `to`.
#[derive(Debug, Clone, Copy)]
pub struct Transfer {
    pub from: Identity,
    pub to: Identity,
    pub lamports: u64,
}

/// What a purchase of `quantity` units does to `ctx`: the context afterwards
/// and the payment it orders, or the error it fails with. The checks come in
/// this order: a positive quantity, enough stock, the payment going to the
/// record's authority, a total price that fits in `u64`.
pub open spec fn purchase_outcome(ctx: PurchaseItem, quantity: u64) -> Result<
    (PurchaseItem, Transfer),
    SolanaMarketplaceError,
> {
    if quantity == 0 {
        Err(SolanaMarketplaceError::InvalidQuantity)
    } else if ctx.item.quantity < quantity {
        Err(SolanaMarketplaceError::InsufficientQuantity)
    } else if ctx.item_authority != ctx.item.authority {
        Err(SolanaMarketplaceError::UnauthorizedAccess)
    } else if ctx.item.price * quantity > u64::MAX {
        Err(SolanaMarketplaceError::InvalidPrice)
    } else {
        Ok(
            (
                PurchaseItem {
                    item: Item {
                        id: ctx.item.id,
                        name: ctx.item.name,
                        quantity: (ctx.item.quantity - quantity) as u64,
                        price: ctx.item.price,
                        authority: ctx.item.authority,
                    },
                    buyer: ctx.buyer,
                    item_authority: ctx.item_authority,
                },
                Transfer {
                    from: ctx.buyer,
                    to: ctx.item.authority,
                    lamports: (ctx.item.price * quantity) as u64,
                },
            ),
        )
    }
}

/// Buys `quantity` units of `ctx.item`. On success the stock is reduced and
/// the returned transfer, `price * quantity` from the buyer to the authority,
/// is the payment the caller must have the gateway carry out; the new stock
/// is to be kept only once that payment went through. On failure nothing
/// changes and no payment is due.
pub fn handler(ctx: &mut PurchaseItem, quantity: u64) -> (r: Result<
    Transfer,
    SolanaMarketplaceError,
>)
    ensures
        match purchase_outcome(*old(ctx), quantity) {
            Ok((next, transfer)) => r == Ok::<Transfer, SolanaMarketplaceError>(transfer)
                && *final(ctx) == next,
            Err(e) => r == Err::<Transfer, SolanaMarketplaceError>(e) && *final(ctx) == *old(
                ctx,
            ),
        },
{
    if quantity == 0 {
        return Err(SolanaMarketplaceError::InvalidQuantity);
    }
    if ctx.item.quantity < quantity {
        return Err(SolanaMarketplaceError::InsufficientQuantity);
    }
    if !authority_matches(&ctx.item.authority, &ctx.item_authority) {
        return Err(SolanaMarketplaceError::UnauthorizedAccess);
    }
    let total_price = match ctx.item.price.checked_mul(quantity) {
        Some(total) => total,
        None => {
            return Err(SolanaMarketplaceError::InvalidPrice);
        },
    };
    let remaining = match ctx.item.quantity.checked_sub(quantity) {
        Some(rest) => rest,
        None => {
            return Err(SolanaMarketplaceError::InsufficientQuantity);
        },
    };
    ctx.item.quantity = remaining;
    Ok(Transfer { from: ctx.buyer, to: ctx.item.authority, lamports: total_price })
}

} // verus!
