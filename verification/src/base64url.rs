//! URL-safe Base64 without padding.

use base64::{Engine, prelude::BASE64_URL_SAFE_NO_PAD};
use vstd::prelude::*;

verus! {

/// The symbol of a value below 64.
pub open spec fn symbol(value: int) -> char {
    if value < 26 {
        (value + 'A' as int) as char
    } else if value < 52 {
        (value - 26 + 'a' as int) as char
    } else if value < 62 {
        (value - 52 + '0' as int) as char
    } else if value == 62 {
        '-'
    } else {
        '_'
    }
}

/// A letter, a digit, `-` or `_`.
pub open spec fn is_symbol(c: char) -> bool {
    ||| 'A' as u32 <= c as u32 <= 'Z' as u32
    ||| 'a' as u32 <= c as u32 <= 'z' as u32
    ||| '0' as u32 <= c as u32 <= '9' as u32
    ||| c == '-'
    ||| c == '_'
}

/// The byte at `i`; beyond the end the input counts as filled up with zeros.
pub open spec fn padded(bytes: Seq<u8>, i: int) -> int {
    if 0 <= i < bytes.len() {
        bytes[i] as int
    } else {
        0
    }
}

/// The `k`-th group of six bits: three bytes make four groups.
pub open spec fn sextet(bytes: Seq<u8>, k: int) -> int {
    let first = padded(bytes, k / 4 * 3);
    let second = padded(bytes, k / 4 * 3 + 1);
    let third = padded(bytes, k / 4 * 3 + 2);
    if k % 4 == 0 {
        first / 4
    } else if k % 4 == 1 {
        first % 4 * 16 + second / 16
    } else if k % 4 == 2 {
        second % 16 * 4 + third / 64
    } else {
        third % 64
    }
}

/// How many symbols it takes to hold the bits of `len` bytes.
pub open spec fn encoded_len(len: nat) -> nat {
    (4 * len + 2) / 3
}

/// `bytes` in Base64, with the URL-safe alphabet and without padding.
pub open spec fn base64url(bytes: Seq<u8>) -> Seq<char> {
    Seq::new(encoded_len(bytes.len()), |k: int| symbol(sextet(bytes, k)))
}

/// Calls `Engine::encode` of `base64`'s engine `URL_SAFE_NO_PAD`. Claimed: the
/// result is the Base64 text of the bytes, in the URL-safe alphabet and
/// without padding.
#[verifier::external_body]
pub(crate) fn encode(bytes: &[u8]) -> (res: String)
    ensures
        res@ == base64url(bytes@),
{
    BASE64_URL_SAFE_NO_PAD.encode(bytes)
}

proof fn symbol_is_injective(a: int, b: int)
    requires
        0 <= a < 64,
        0 <= b < 64,
        symbol(a) == symbol(b),
    ensures
        a == b,
{
}

proof fn sextet_is_small(bytes: Seq<u8>, k: int)
    ensures
        0 <= sextet(bytes, k) < 64,
{
}

/// An encoded text consists of letters, digits, `-` and `_` alone: it can
/// stand in a URL, a header and a JSON string as it is.
pub proof fn encoded_text_is_url_safe(bytes: Seq<u8>)
    ensures
        forall|k: int| 0 <= k < base64url(bytes).len() ==> is_symbol(#[trigger] base64url(bytes)[k]),
{
    assert forall|k: int| 0 <= k < base64url(bytes).len() implies is_symbol(
        #[trigger] base64url(bytes)[k],
    ) by {
        sextet_is_small(bytes, k);
    }
}

/// Different bytes have different texts: encoding loses nothing.
pub proof fn encoding_is_injective(a: Seq<u8>, b: Seq<u8>)
    requires
        base64url(a) == base64url(b),
    ensures
        a == b,
{
    let x = base64url(a);
    let y = base64url(b);
    assert(x.len() == encoded_len(a.len()));
    assert(y.len() == encoded_len(b.len()));
    assert(a.len() == b.len());
    assert forall|k: int| 0 <= k < x.len() implies sextet(a, k) == sextet(b, k) by {
        assert(base64url(a)[k] == symbol(sextet(a, k)));
        assert(base64url(b)[k] == symbol(sextet(b, k)));
        sextet_is_small(a, k);
        sextet_is_small(b, k);
        symbol_is_injective(sextet(a, k), sextet(b, k));
    }
    assert forall|i: int| 0 <= i < a.len() implies a[i] == b[i] by {
        let k = i / 3 * 4 + i % 3;
        assert(0 <= k && k + 1 < x.len());
        assert(k / 4 == i / 3);
        assert((k + 1) / 4 == i / 3);
        assert(k % 4 == i % 3);
        assert((k + 1) % 4 == i % 3 + 1);
        assert(sextet(a, k) == sextet(b, k));
        assert(sextet(a, k + 1) == sextet(b, k + 1));
    }
    assert(a =~= b);
}

} // verus!
