use vstd::prelude::*;

verus! {

/// The ways an operation on an item record can fail. Each one is terminal for
/// the operation that raised it, and the record is left as it was.
#[derive(Debug, Clone, Copy, PartialEq, Eq, Structural)]
pub enum SolanaMarketplaceError {
    /// The signer, or the payment destination, is not the record's authority.
    UnauthorizedAccess,
    /// A purchase asks for more than the record holds.
    InsufficientQuantity,
    /// A price of zero at creation, or a total price beyond `u64`.
    InvalidPrice,
    /// A quantity of zero where a positive one is needed.
    InvalidQuantity,
}

} // verus!
