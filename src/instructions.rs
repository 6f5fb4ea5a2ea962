//! The four operations on an item record, one module each. Each takes the
//! accounts it works on as a context value and either applies its whole
//! effect or fails with one error and changes nothing.
pub mod create_item;
pub mod delete_item;
pub mod purchase_item;
pub mod update_quantity;
