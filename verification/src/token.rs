//! Unguessable tokens.

use crate::base64url::{base64url, encode, encoded_len, encoded_text_is_url_safe, is_symbol};
use vstd::prelude::*;

verus! {

/// Declares `aws_lc_rs::error::Unspecified`, the error of most operations of
/// `aws_lc_rs`.
#[verifier::external_type_specification]
#[verifier::external_body]
pub struct ExUnspecified(aws_lc_rs::error::Unspecified);

/// The machine has no random bytes to give.
#[derive(Clone, Copy, Debug, PartialEq, Eq, Structural)]
pub struct RandomnessUnavailable;

/// Calls `aws_lc_rs::rand::fill` on a new buffer. Claimed: if it succeeds,
/// there are as many bytes as were asked for. Nothing is claimed of the bytes
/// themselves, which are random.
#[verifier::external_body]
fn random_bytes(len: usize) -> (res: Result<Vec<u8>, aws_lc_rs::error::Unspecified>)
    ensures
        res matches Ok(bytes) ==> bytes@.len() == len,
{
    let mut bytes = vec![0; len];
    aws_lc_rs::rand::fill(&mut bytes)?;
    Ok(bytes)
}

/// Whether `s` is the text of 128 bits.
pub open spec fn is_token(s: Seq<char>) -> bool {
    exists|bytes: Seq<u8>| bytes.len() == 16 && s == #[trigger] base64url(bytes)
}

/// The token that stands for the given bytes.
pub fn token_of(bytes: &[u8]) -> (res: String)
    ensures
        res@ == base64url(bytes@),
{
    encode(bytes)
}

/// The token that comes of an attempt to get random bytes: there is one just
/// if there are bytes.
pub fn token_from(bytes: Result<Vec<u8>, aws_lc_rs::error::Unspecified>) -> (res: Result<
    String,
    RandomnessUnavailable,
>)
    ensures
        match bytes {
            Ok(bytes) => res matches Ok(token) && token@ == base64url(bytes@),
            Err(_) => res is Err,
        },
{
    match bytes {
        Ok(bytes) => Ok(token_of(bytes.as_slice())),
        Err(_) => Err(RandomnessUnavailable),
    }
}

/// A URL-safe, unguessable random token (128 bits). Whether there is one is up
/// to the machine: [`token_from`] says what comes of the 16 bytes that are
/// asked for.
pub fn random_token() -> (res: Result<String, RandomnessUnavailable>)
    ensures
        res matches Ok(token) ==> is_token(token@),
{
    token_from(random_bytes(16))
}

/// A token has 22 characters, all of them letters, digits, `-` or `_`.
pub proof fn token_is_url_safe(token: Seq<char>)
    requires
        is_token(token),
    ensures
        token.len() == 22,
        forall|i: int| 0 <= i < token.len() ==> is_symbol(#[trigger] token[i]),
{
    let bytes = choose|bytes: Seq<u8>| bytes.len() == 16 && token == #[trigger] base64url(bytes);
    encoded_text_is_url_safe(bytes);
    assert(encoded_len(16) == 22);
}

} // verus!
