use vstd::prelude::*;

verus! {

/// The number of bytes in an identity.
pub const IDENTITY_LEN: usize = 32;

/// A verified signer or account identity: the 32 bytes of a public key.
/// Identities are only ever compared for equality.
#[derive(Debug, Clone, Copy)]
pub struct Identity {
    pub bytes: [u8; 32],
}

impl Identity {
    pub fn new(bytes: [u8; 32]) -> (r: Identity)
        ensures
            r.bytes == bytes,
    {
        Identity { bytes }
    }
}

/// Whether `signer` is the identity recorded as `authority`, byte for byte.
pub fn authority_matches(authority: &Identity, signer: &Identity) -> (r: bool)
    ensures
        r == (*authority == *signer),
{
    let mut i: usize = 0;
    while i < IDENTITY_LEN
        invariant
            i <= IDENTITY_LEN,
            forall|j: int| 0 <= j < i ==> authority.bytes[j] == signer.bytes[j],
        decreases IDENTITY_LEN - i,
    {
        if authority.bytes[i] != signer.bytes[i] {
            return false;
        }
        i = i + 1;
    }
    assert(authority.bytes =~= signer.bytes);
    true
}

/// One inventory line. `quantity` and `price` are counted in units and in the
/// smallest currency denomination; `authority` alone may change or delete it.
pub struct Item {
    pub id: u64,
    pub name: String,
    pub quantity: u64,
    pub price: u64,
    pub authority: Identity,
}

} // verus!
