//! Account keys and the text under which they are shown.

use vstd::prelude::*;

verus! {

/// The text under which a 32-byte account key is shown: its bytes in base58.
pub uninterp spec fn base58_text(key: Seq<u8>) -> Seq<char>;

/// Relies on the `Debug` impl of anchor_lang's `Pubkey` (`solana_address::Address`),
/// which writes the key's 32 bytes in base58 and reads nothing else.
#[verifier::external_body]
pub(crate) fn key_text(key: &[u8; 32]) -> (r: String)
    ensures
        r@ == base58_text(key@),
{
    format!("{:?}", anchor_lang::prelude::Pubkey::new_from_array(*key))
}

} // verus!
