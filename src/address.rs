use vstd::prelude::*;
use solana_sdk::pubkey::Pubkey;

verus! {

/// A 32-byte account address, compared by value.
#[derive(Clone, Copy, Debug, PartialEq, Eq)]
pub struct Address {
    pub bytes: [u8; 32],
}

impl View for Address {
    type V = Seq<u8>;

    open spec fn view(&self) -> Seq<u8> {
        self.bytes@
    }
}

impl Address {
    pub fn new(bytes: [u8; 32]) -> (r: Address)
        ensures
            r@ == bytes@,
    {
        Address { bytes }
    }
}

/// The canonical (base-58) text of an address's bytes.
pub uninterp spec fn address_text(bytes: Seq<u8>) -> Seq<char>;

/// Relies on solana_sdk's `Display` for `Pubkey`: the base-58 text of the
/// 32 bytes, which depends on the bytes alone.
#[verifier::external_body]
pub(crate) fn address_string(a: &Address) -> (r: String)
    ensures
        r@ == address_text(a@),
{
    Pubkey::new(&a.bytes).to_string()
}

} // verus!
