//! An inventory ledger: item records owned by an authority, with creation,
//! stock updates, purchases priced in the smallest currency unit, and deletion.
use vstd::prelude::*;

pub mod error;
pub mod instructions;
pub mod properties;
pub mod state;

pub use error::SolanaMarketplaceError;
pub use instructions::create_item::{create_outcome, CreateItem};
pub use instructions::delete_item::{delete_outcome, DeleteItem};
pub use instructions::purchase_item::{purchase_outcome, PurchaseItem, Transfer};
pub use instructions::update_quantity::{update_outcome, UpdateQuantity};
pub use instructions::{create_item, delete_item, purchase_item, update_quantity};
pub use state::{authority_matches, Identity, Item};

verus! {

/// Creates an item record in `ctx.item`; see `create_item::handler`.
pub fn create_item(
    ctx: &mut CreateItem,
    id: u64,
    name: String,
    quantity: u64,
    price: u64,
) -> (r: Result<(), SolanaMarketplaceError>)
    ensures
        match create_outcome(*old(ctx), id, name, quantity, price) {
            Ok(next) => r == Ok::<(), SolanaMarketplaceError>(()) && *final(ctx) == next,
            Err(e) => r == Err::<(), SolanaMarketplaceError>(e) && *final(ctx) == *old(ctx),
        },
{
    create_item::handler(ctx, id, name, quantity, price)
}

/// Sets the stock of an item record; see `update_quantity::handler`.
pub fn update_quantity(ctx: &mut UpdateQuantity, quantity: u64) -> (r: Result<
    (),
    SolanaMarketplaceError,
>)
    ensures
        match update_outcome(*old(ctx), quantity) {
            Ok(next) => r == Ok::<(), SolanaMarketplaceError>(()) && *final(ctx) == next,
            Err(e) => r == Err::<(), SolanaMarketplaceError>(e) && *final(ctx) == *old(ctx),
        },
{
    update_quantity::handler(ctx, quantity)
}

/// Buys units of an item record and returns the payment due; see
/// `purchase_item::handler`.
pub fn purchase_item(ctx: &mut PurchaseItem, quantity: u64) -> (r: Result<
    Transfer,
    SolanaMarketplaceError,
>)
    ensures
        match purchase_outcome(*old(ctx), quantity) {
            Ok((next, transfer)) => r == Ok::<Transfer, SolanaMarketplaceError>(transfer)
                && *final(ctx) == next,
            Err(e) => r == Err::<Transfer, SolanaMarketplaceError>(e) && *final(ctx) == *old(
                ctx,
            ),
        },
{
    purchase_item::handler(ctx, quantity)
}

/// Removes an item record; see `delete_item::handler`.
pub fn delete_item(ctx: &mut DeleteItem) -> (r: Result<(), SolanaMarketplaceError>)
    requires
        old(ctx).item is Some,
    ensures
        match delete_outcome(*old(ctx)) {
            Ok(next) => r == Ok::<(), SolanaMarketplaceError>(()) && *final(ctx) == next,
            Err(e) => r == Err::<(), SolanaMarketplaceError>(e) && *final(ctx) == *old(ctx),
        },
{
    delete_item::handler(ctx)
}

} // verus!
