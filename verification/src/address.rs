//! Program-derived addresses. An address is derived from an ordered list of seed
//! segments under a program identifier, or the derivation fails; an address has a
//! canonical display string. Both are the work of `solana_pubkey`: the functions at
//! the end of this file hand one call on each, and Verus takes on trust what is
//! stated of them.

use solana_pubkey::Pubkey;
use vstd::prelude::*;

verus! {

/// The address that `solana_pubkey::Pubkey::create_program_address` derives from an
/// ordered list of seed segments under a program identifier, as its 32 bytes, or
/// `None` where the derivation fails. It depends on the segments and the identifier
/// alone.
pub uninterp spec fn program_address(segments: Seq<Seq<u8>>, program_id: Seq<u8>) -> Option<
    Seq<u8>,
>;

/// The canonical display string of an address: what `Display` writes for a
/// `solana_pubkey::Pubkey` made of these 32 bytes.
pub uninterp spec fn address_text(address: Seq<u8>) -> Seq<char>;

/// Derives the address of the two segments `prefix` and `body` under `program_id`
/// by `Pubkey::create_program_address`. The result is by definition
/// [`program_address`] of the same values; a derivation that fails, whatever the
/// reason, gives `None`.
#[verifier::external_body]
pub(crate) fn derive_address(prefix: &[u8], body: &[u8; 32], program_id: &[u8; 32]) -> (derived:
    Option<[u8; 32]>)
    ensures
        match derived {
            Some(address) => program_address(seq![prefix@, body@], program_id@) == Some(
                address@,
            ),
            None => program_address(seq![prefix@, body@], program_id@) is None,
        },
{
    let program = Pubkey::new_from_array(*program_id);
    match Pubkey::create_program_address(&[prefix, body.as_slice()], &program) {
        Ok(address) => Some(address.to_bytes()),
        Err(_) => None,
    }
}

/// Renders an address as `Display` does for a `Pubkey`. The result is by definition
/// [`address_text`] of the address.
#[verifier::external_body]
pub(crate) fn render_address(address: &[u8; 32]) -> (text: String)
    ensures
        text@ == address_text(address@),
{
    Pubkey::new_from_array(*address).to_string()
}

} // verus!
