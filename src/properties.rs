//! Facts about the operations, stated over the outcome functions that the
//! handlers' contracts are written in. A handler that fails leaves its
//! context unchanged (its `ensures`), so a failure here is also a promise that
//! nothing moved.
use vstd::prelude::*;

use crate::error::SolanaMarketplaceError;
use crate::instructions::create_item::{create_outcome, CreateItem};
use crate::instructions::delete_item::{delete_outcome, DeleteItem};
use crate::instructions::purchase_item::{purchase_outcome, PurchaseItem, Transfer};
use crate::instructions::update_quantity::{update_outcome, UpdateQuantity};

verus! {

/// With a positive price and quantity, creation succeeds, and the new record
/// holds exactly the given fields, with the signer as its authority.
pub proof fn create_succeeds_when_valid(
    ctx: CreateItem,
    id: u64,
    name: String,
    quantity: u64,
    price: u64,
)
    requires
        price > 0,
        quantity > 0,
    ensures
        create_outcome(ctx, id, name, quantity, price) matches Ok(next) && next.item matches Some(
            item,
        ) && item.id == id && item.name == name && item.quantity == quantity && item.price
            == price && item.authority == ctx.authority,
{
}

/// Creation with a price of zero fails with `InvalidPrice`, whatever the
/// quantity.
pub proof fn create_rejects_zero_price(ctx: CreateItem, id: u64, name: String, quantity: u64)
    ensures
        create_outcome(ctx, id, name, quantity, 0) == Err::<CreateItem, SolanaMarketplaceError>(
            SolanaMarketplaceError::InvalidPrice,
        ),
{
}

/// Creation with a positive price and a quantity of zero fails with
/// `InvalidQuantity`.
pub proof fn create_rejects_zero_quantity(ctx: CreateItem, id: u64, name: String, price: u64)
    requires
        price > 0,
    ensures
        create_outcome(ctx, id, name, 0, price) == Err::<CreateItem, SolanaMarketplaceError>(
            SolanaMarketplaceError::InvalidQuantity,
        ),
{
}

/// A stock update asked for by a signer other than the authority fails with
/// `UnauthorizedAccess` (a zero quantity is refused before the signer is
/// looked at).
pub proof fn update_rejects_other_signer(ctx: UpdateQuantity, quantity: u64)
    requires
        quantity > 0,
        ctx.authority != ctx.item.authority,
    ensures
        update_outcome(ctx, quantity) == Err::<UpdateQuantity, SolanaMarketplaceError>(
            SolanaMarketplaceError::UnauthorizedAccess,
        ),
{
}

/// A stock update to zero fails with `InvalidQuantity`, whoever signs it,
/// the authority included.
pub proof fn update_rejects_zero_quantity(ctx: UpdateQuantity)
    ensures
        update_outcome(ctx, 0) == Err::<UpdateQuantity, SolanaMarketplaceError>(
            SolanaMarketplaceError::InvalidQuantity,
        ),
{
}

/// A purchase of more than the stock fails with `InsufficientQuantity`, and so
/// orders no payment.
pub proof fn purchase_rejects_more_than_stock(ctx: PurchaseItem, quantity: u64)
    requires
        quantity > ctx.item.quantity,
    ensures
        purchase_outcome(ctx, quantity) == Err::<
            (PurchaseItem, Transfer),
            SolanaMarketplaceError,
        >(SolanaMarketplaceError::InsufficientQuantity),
{
}

/// A purchase of the whole (positive) stock, paid to the authority, with a
/// total that fits in `u64`, succeeds: the stock drops to zero, the rest of
/// the record stays, and `price * quantity` goes from the buyer to the
/// authority.
pub proof fn purchase_of_whole_stock(ctx: PurchaseItem)
    requires
        ctx.item.quantity > 0,
        ctx.item_authority == ctx.item.authority,
        ctx.item.price * ctx.item.quantity <= u64::MAX,
    ensures
        purchase_outcome(ctx, ctx.item.quantity) matches Ok((next, transfer)) && next.item.quantity
            == 0 && next.item.id == ctx.item.id && next.item.name == ctx.item.name
            && next.item.price == ctx.item.price && next.item.authority == ctx.item.authority
            && transfer.from == ctx.buyer && transfer.to == ctx.item.authority && transfer.lamports
            == ctx.item.price * ctx.item.quantity,
{
}

/// A purchase that passes the stock and destination checks but whose total
/// price overflows `u64` fails with `InvalidPrice`, and so orders no payment.
pub proof fn purchase_rejects_overflowing_total(ctx: PurchaseItem, quantity: u64)
    requires
        quantity <= ctx.item.quantity,
        ctx.item_authority == ctx.item.authority,
        ctx.item.price * quantity > u64::MAX,
    ensures
        purchase_outcome(ctx, quantity) == Err::<
            (PurchaseItem, Transfer),
            SolanaMarketplaceError,
        >(SolanaMarketplaceError::InvalidPrice),
{
    if quantity == 0 {
        assert(ctx.item.price * quantity == 0);
    }
}

/// Deletion by the authority empties the slot, so that the record can no
/// longer be read; deletion by anyone else fails with `UnauthorizedAccess`.
pub proof fn delete_only_by_authority(ctx: DeleteItem)
    requires
        ctx.item is Some,
    ensures
        ctx.authority == ctx.item->Some_0.authority ==> (delete_outcome(ctx) matches Ok(next)
            && next.item is None),
        ctx.authority != ctx.item->Some_0.authority ==> delete_outcome(ctx) == Err::<
            DeleteItem,
            SolanaMarketplaceError,
        >(SolanaMarketplaceError::UnauthorizedAccess),
{
}

} // verus!
