use solana_marketplace::{
    authority_matches, create_item, delete_item, purchase_item, update_quantity, CreateItem,
    DeleteItem, Identity, Item, PurchaseItem, SolanaMarketplaceError, UpdateQuantity,
};

fn key(seed: u8) -> Identity {
    let mut bytes = [0u8; 32];
    for (i, b) in bytes.iter_mut().enumerate() {
        *b = seed.wrapping_add(i as u8);
    }
    Identity::new(bytes)
}

fn item(quantity: u64, price: u64, authority: Identity) -> Item {
    Item { id: 1, name: String::from("Widget"), quantity, price, authority }
}

fn purchase_ctx(quantity: u64, price: u64) -> PurchaseItem {
    let owner = key(1);
    PurchaseItem { item: item(quantity, price, owner), buyer: key(2), item_authority: owner }
}

#[test]
fn create_sets_fields_and_authority() {
    let mut ctx = CreateItem { authority: key(7), item: None };
    assert_eq!(create_item(&mut ctx, 42, String::from("Lamp"), 3, 250), Ok(()));
    let created = ctx.item.expect("record created");
    assert_eq!(created.id, 42);
    assert_eq!(created.name, "Lamp");
    assert_eq!(created.quantity, 3);
    assert_eq!(created.price, 250);
    assert!(authority_matches(&created.authority, &key(7)));
}

#[test]
fn create_with_zero_price_fails() {
    for quantity in [0u64, 1, 10, u64::MAX] {
        let mut ctx = CreateItem { authority: key(7), item: None };
        let r = create_item(&mut ctx, 1, String::from("Widget"), quantity, 0);
        assert_eq!(r, Err(SolanaMarketplaceError::InvalidPrice));
        assert!(ctx.item.is_none());
    }
}

#[test]
fn create_with_zero_quantity_fails() {
    let mut ctx = CreateItem { authority: key(7), item: None };
    let r = create_item(&mut ctx, 1, String::from("Widget"), 0, 100);
    assert_eq!(r, Err(SolanaMarketplaceError::InvalidQuantity));
    assert!(ctx.item.is_none());
}

#[test]
fn create_accepts_largest_values() {
    let mut ctx = CreateItem { authority: key(7), item: None };
    let r = create_item(&mut ctx, u64::MAX, String::new(), u64::MAX, u64::MAX);
    assert_eq!(r, Ok(()));
    let created = ctx.item.expect("record created");
    assert_eq!(created.quantity, u64::MAX);
    assert_eq!(created.price, u64::MAX);
}

#[test]
fn update_by_other_signer_fails() {
    let mut ctx = UpdateQuantity { item: item(10, 100, key(1)), authority: key(2) };
    assert_eq!(update_quantity(&mut ctx, 50), Err(SolanaMarketplaceError::UnauthorizedAccess));
    assert_eq!(ctx.item.quantity, 10);
}

#[test]
fn update_to_zero_fails_for_authority() {
    let mut ctx = UpdateQuantity { item: item(10, 100, key(1)), authority: key(1) };
    assert_eq!(update_quantity(&mut ctx, 0), Err(SolanaMarketplaceError::InvalidQuantity));
    assert_eq!(ctx.item.quantity, 10);
}

#[test]
fn update_zero_quantity_is_checked_before_signer() {
    let mut ctx = UpdateQuantity { item: item(10, 100, key(1)), authority: key(2) };
    assert_eq!(update_quantity(&mut ctx, 0), Err(SolanaMarketplaceError::InvalidQuantity));
}

#[test]
fn update_replaces_quantity() {
    let mut ctx = UpdateQuantity { item: item(10, 100, key(1)), authority: key(1) };
    assert_eq!(update_quantity(&mut ctx, 4), Ok(()));
    assert_eq!(ctx.item.quantity, 4);
    assert_eq!(ctx.item.price, 100);
}

#[test]
fn purchase_more_than_stock_fails() {
    let mut ctx = purchase_ctx(5, 100);
    let r = purchase_item(&mut ctx, 6);
    assert_eq!(r.err(), Some(SolanaMarketplaceError::InsufficientQuantity));
    assert_eq!(ctx.item.quantity, 5);
}

#[test]
fn purchase_of_whole_stock_empties_it() {
    let mut ctx = purchase_ctx(5, 100);
    let transfer = purchase_item(&mut ctx, 5).expect("purchase succeeds");
    assert_eq!(ctx.item.quantity, 0);
    assert_eq!(transfer.lamports, 500);
    assert!(authority_matches(&transfer.to, &key(1)));
    assert!(authority_matches(&transfer.from, &key(2)));
}

#[test]
fn purchase_with_overflowing_total_fails() {
    let mut ctx = purchase_ctx(10, u64::MAX / 2 + 1);
    let r = purchase_item(&mut ctx, 2);
    assert_eq!(r.err(), Some(SolanaMarketplaceError::InvalidPrice));
    assert_eq!(ctx.item.quantity, 10);
}

#[test]
fn purchase_with_total_at_the_limit_succeeds() {
    let mut ctx = purchase_ctx(3, u64::MAX / 3);
    let transfer = purchase_item(&mut ctx, 3).expect("purchase succeeds");
    assert_eq!(transfer.lamports, u64::MAX);
    assert_eq!(ctx.item.quantity, 0);
}

#[test]
fn purchase_of_zero_fails() {
    let mut ctx = purchase_ctx(5, 100);
    let r = purchase_item(&mut ctx, 0);
    assert_eq!(r.err(), Some(SolanaMarketplaceError::InvalidQuantity));
    assert_eq!(ctx.item.quantity, 5);
}

#[test]
fn purchase_paid_to_wrong_destination_fails() {
    let mut ctx = purchase_ctx(5, 100);
    ctx.item_authority = key(3);
    let r = purchase_item(&mut ctx, 2);
    assert_eq!(r.err(), Some(SolanaMarketplaceError::UnauthorizedAccess));
    assert_eq!(ctx.item.quantity, 5);
}

#[test]
fn delete_by_authority_removes_record() {
    let mut ctx = DeleteItem { item: Some(item(10, 100, key(1))), authority: key(1) };
    assert_eq!(delete_item(&mut ctx), Ok(()));
    assert!(ctx.item.is_none());
}

#[test]
fn delete_by_other_signer_fails() {
    let mut ctx = DeleteItem { item: Some(item(10, 100, key(1))), authority: key(9) };
    assert_eq!(delete_item(&mut ctx), Err(SolanaMarketplaceError::UnauthorizedAccess));
    let kept = ctx.item.expect("record kept");
    assert_eq!(kept.quantity, 10);
    assert_eq!(kept.name, "Widget");
}

#[test]
fn identities_differing_in_last_byte_do_not_match() {
    let a = key(1);
    let mut bytes = a.bytes;
    bytes[31] ^= 1;
    assert!(authority_matches(&a, &a));
    assert!(!authority_matches(&a, &Identity::new(bytes)));
}

#[test]
fn widget_lifecycle() {
    let owner = key(1);
    let buyer = key(2);

    let mut create = CreateItem { authority: owner, item: None };
    assert_eq!(create_item(&mut create, 1, String::from("Widget"), 10, 100), Ok(()));
    let record = create.item.expect("record created");

    let mut purchase = PurchaseItem { item: record, buyer, item_authority: owner };
    let transfer = purchase_item(&mut purchase, 3).expect("purchase succeeds");
    assert_eq!(transfer.lamports, 300);
    assert!(authority_matches(&transfer.to, &owner));
    assert_eq!(purchase.item.quantity, 7);

    let mut update = UpdateQuantity { item: purchase.item, authority: owner };
    assert_eq!(update_quantity(&mut update, 50), Ok(()));
    assert_eq!(update.item.quantity, 50);

    let mut delete = DeleteItem { item: Some(update.item), authority: owner };
    assert_eq!(delete_item(&mut delete), Ok(()));
    assert!(delete.item.is_none());
}
