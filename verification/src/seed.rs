//! A seed's canonical form: its 32 bytes written as 64 lowercase hexadecimal digits.
//! The store knows a seed by this text.

use vstd::prelude::*;

verus! {

/// The lowercase hexadecimal digit of a number below 16: `'0'`, which is character
/// 48, to `'9'`, then `'a'`, which is character 97, to `'f'`.
pub open spec fn hex_digit(n: u8) -> char {
    if n < 10 {
        (48 + n) as char
    } else {
        (97 + (n - 10)) as char
    }
}

/// The bytes written in hexadecimal: two lowercase digits for each byte, the high
/// one first.
pub open spec fn hex_text(bytes: Seq<u8>) -> Seq<char> {
    Seq::new(
        2 * bytes.len(),
        |i: int|
            if i % 2 == 0 {
                hex_digit(bytes[i / 2] / 16)
            } else {
                hex_digit(bytes[i / 2] % 16)
            },
    )
}

/// Different digits stand for different numbers.
pub proof fn lemma_hex_digit_injective(a: u8, b: u8)
    requires
        a < 16,
        b < 16,
        hex_digit(a) == hex_digit(b),
    ensures
        a == b,
{
    assert((48 + a) as char as u32 == 48 + a);
    assert((97 + (a - 10)) as char as u32 == 97 + (a - 10));
    assert((48 + b) as char as u32 == 48 + b);
    assert((97 + (b - 10)) as char as u32 == 97 + (b - 10));
}

/// Two seeds with the same text are the same seed: the text is a key.
pub proof fn lemma_hex_text_injective(a: Seq<u8>, b: Seq<u8>)
    requires
        hex_text(a) == hex_text(b),
    ensures
        a == b,
{
    assert(hex_text(a).len() == 2 * a.len());
    assert(hex_text(b).len() == 2 * b.len());
    assert forall|i: int| 0 <= i < a.len() implies a[i] == b[i] by {
        assert(hex_text(a)[2 * i] == hex_digit(a[i] / 16));
        assert(hex_text(b)[2 * i] == hex_digit(b[i] / 16));
        assert(hex_text(a)[2 * i + 1] == hex_digit(a[i] % 16));
        assert(hex_text(b)[2 * i + 1] == hex_digit(b[i] % 16));
        lemma_hex_digit_injective(a[i] / 16, b[i] / 16);
        lemma_hex_digit_injective(a[i] % 16, b[i] % 16);
    }
    assert(a =~= b);
}

/// Writes a seed by `hex::encode`, which gives two lowercase digits for each byte,
/// the high one first.
#[verifier::external_body]
fn hex_encode(seed: &[u8; 32]) -> (text: String)
    ensures
        text@ == hex_text(seed@),
{
    hex::encode(seed)
}

/// The canonical text of a seed.
pub fn seed_hex(seed: &[u8; 32]) -> (text: String)
    ensures
        text@ == hex_text(seed@),
        text@.len() == 64,
{
    hex_encode(seed)
}

} // verus!
