//! Unpadded standard base64, used to turn raw salt bytes into salt text.

use vstd::arithmetic::div_mod::lemma_fundamental_div_mod;
use vstd::arithmetic::div_mod::lemma_fundamental_div_mod_converse;
use vstd::prelude::*;
use base64::Engine;

verus! {

/// The unpadded standard base64 text of a byte sequence.
pub uninterp spec fn b64_no_pad(bytes: Seq<u8>) -> Seq<char>;

/// A character of the standard base64 alphabet.
pub open spec fn is_b64_char(c: char) -> bool {
    ('A' <= c && c <= 'Z') || ('a' <= c && c <= 'z') || ('0' <= c && c <= '9') || c == '+' || c
        == '/'
}

/// The length of the unpadded base64 text of `n` bytes: ceil(4n/3).
pub open spec fn b64_len(n: nat) -> nat {
    (4 * n + 2) / 3
}

/// Encode bytes as unpadded standard base64 text.
///
/// Relies on base64's `Engine::encode` with the `STANDARD_NO_PAD`
/// engine: the result is the base64 text of the input, ceil(4n/3)
/// characters long, all from the standard alphabet, with no padding.
#[verifier::external_body]
pub(crate) fn b64_encode(bytes: &Vec<u8>) -> (r: String)
    ensures
        r@ == b64_no_pad(bytes@),
        r@.len() == b64_len(bytes@.len()),
        forall|i: int| 0 <= i < r@.len() ==> is_b64_char(#[trigger] r@[i]),
{
    base64::engine::general_purpose::STANDARD_NO_PAD.encode(bytes)
}

/// The unpadded base64 text of `n` bytes is within one character of
/// 4n/3 long, and its length is never 1 modulo 4.
pub proof fn lemma_b64_len(n: nat)
    ensures
        3 * b64_len(n) <= 4 * n + 2 < 3 * b64_len(n) + 3,
        b64_len(n) % 4 != 1,
{
    lemma_fundamental_div_mod((4 * n + 2) as int, 3);
    lemma_fundamental_div_mod(n as int, 3);
    let k = n as int / 3;
    let r = n as int % 3;
    let q = b64_len(n) as int;
    if r == 0 {
        lemma_fundamental_div_mod_converse(4 * (n as int) + 2, 3, 4 * k, 2);
        lemma_fundamental_div_mod_converse(q, 4, k, 0);
    } else if r == 1 {
        lemma_fundamental_div_mod_converse(4 * (n as int) + 2, 3, 4 * k + 2, 0);
        lemma_fundamental_div_mod_converse(q, 4, k, 2);
    } else {
        lemma_fundamental_div_mod_converse(4 * (n as int) + 2, 3, 4 * k + 3, 1);
        lemma_fundamental_div_mod_converse(q, 4, k, 3);
    }
}

} // verus!
