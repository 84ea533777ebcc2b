//! The public keys that a platform signs its launches with.

use jwtea::VerifyingKey;
use vstd::prelude::*;

verus! {

/// Declares `jwtea::VerifyingKey`, a public key. Nothing is read from one: it
/// is handed on to the verification of a token.
#[verifier::external_type_specification]
#[verifier::external_body]
pub struct ExVerifyingKey(VerifyingKey);

/// The entries of the JWKS document that `serde_json::from_slice` reads as a
/// `jwtea::Jwks`, each as the key that `Jwks::to_verifying_keys` makes of it,
/// or as `None` where it makes none. `None` if the document cannot be read.
pub uninterp spec fn jwks_entries(document: Seq<u8>) -> Option<Seq<Option<VerifyingKey>>>;

/// Calls `serde_json::from_slice` for a `jwtea::Jwks`, and
/// `Jwks::to_verifying_keys`. Claimed: whether the document can be read, and
/// which entries can be used as which keys, depends on the document alone.
#[verifier::external_body]
fn parse_jwks(document: &[u8]) -> (res: Option<Vec<Option<VerifyingKey>>>)
    ensures
        match (res, jwks_entries(document@)) {
            (Some(entries), Some(expected)) => entries@ == expected,
            (None, None) => true,
            _ => false,
        },
{
    let jwks: jwtea::Jwks = serde_json::from_slice(document).ok()?;
    Some(jwks.to_verifying_keys().map(Result::ok).collect())
}

/// The keys among the entries of a JWKS document, in their order.
pub open spec fn usable(entries: Seq<Option<VerifyingKey>>) -> Seq<VerifyingKey>
    decreases entries.len(),
{
    if entries.len() == 0 {
        seq![]
    } else {
        match entries.last() {
            Some(key) => usable(entries.drop_last()).push(key),
            None => usable(entries.drop_last()),
        }
    }
}

/// Why there are no keys.
#[derive(Clone, Copy, Debug, PartialEq, Eq, Structural)]
pub enum KeysError {
    /// The platform answered with this status.
    Status(u16),
    /// The answer is not a JWKS document.
    Unreadable,
}

/// Checks the status that the platform answers with.
pub fn check_keyset_status(status: u16) -> (res: Result<(), KeysError>)
    ensures
        200 <= status < 300 ==> res is Ok,
        !(200 <= status < 300) ==> res == Err::<(), KeysError>(KeysError::Status(status)),
{
    if 200 <= status && status < 300 {
        Ok(())
    } else {
        Err(KeysError::Status(status))
    }
}

/// Picks the keys from the entries of a JWKS document. Entries that cannot be
/// used are skipped.
pub fn usable_keys(entries: Vec<Option<VerifyingKey>>) -> (res: Vec<VerifyingKey>)
    ensures
        res@ == usable(entries@),
{
    let ghost all = entries@;
    let mut res: Vec<VerifyingKey> = Vec::new();
    for entry in it: entries
        invariant
            it.seq() == all,
            res@ == usable(all.take(it.index())),
    {
        assert(all.take(it.index() + 1).drop_last() =~= all.take(it.index()));
        match entry {
            Some(key) => res.push(key),
            None => {},
        }
    }
    assert(all.take(all.len() as int) =~= all);
    res
}

/// Reads the keys of a platform from the JWKS document that it publishes.
pub fn read_platform_keys(document: &[u8]) -> (res: Result<Vec<VerifyingKey>, KeysError>)
    ensures
        match jwks_entries(document@) {
            Some(entries) => res matches Ok(keys) && keys@ == usable(entries),
            None => res matches Err(e) && e == KeysError::Unreadable,
        },
{
    match parse_jwks(document) {
        Some(entries) => Ok(usable_keys(entries)),
        None => Err(KeysError::Unreadable),
    }
}

/// A document is read entry by entry: what one entry holds does not change
/// what the others give.
pub proof fn entries_do_not_interfere(
    a: Seq<Option<VerifyingKey>>,
    b: Seq<Option<VerifyingKey>>,
)
    ensures
        usable(a + b) == usable(a) + usable(b),
    decreases b.len(),
{
    if b.len() == 0 {
        assert(a + b =~= a);
    } else {
        assert((a + b).drop_last() =~= a + b.drop_last());
        entries_do_not_interfere(a, b.drop_last());
    }
}

/// Each usable key of a document is read, and nothing else is: an entry that
/// is not understood neither adds a key nor hides one.
pub proof fn exactly_the_usable_keys_are_read(
    entries: Seq<Option<VerifyingKey>>,
    key: VerifyingKey,
)
    ensures
        usable(entries).contains(key) <==> entries.contains(Some(key)),
    decreases entries.len(),
{
    if entries.len() > 0 {
        let front = entries.drop_last();
        exactly_the_usable_keys_are_read(front, key);
        if entries.contains(Some(key)) {
            let i = choose|i: int| 0 <= i < entries.len() && entries[i] == Some(key);
            if i < front.len() {
                assert(front[i] == Some(key));
                let j = choose|j: int| 0 <= j < usable(front).len() && usable(front)[j] == key;
                assert(usable(entries)[j] == key);
            } else {
                assert(usable(entries).last() == key);
            }
        }
        if usable(entries).contains(key) {
            let j = choose|j: int| 0 <= j < usable(entries).len() && usable(entries)[j] == key;
            if j < usable(front).len() {
                assert(usable(front)[j] == key);
                let i = choose|i: int| 0 <= i < front.len() && front[i] == Some(key);
                assert(entries[i] == Some(key));
            } else {
                assert(entries.last() == Some(key));
            }
        }
    }
}

/// One entry gives its key, once, or nothing.
pub proof fn entry_gives_its_key_once(key: VerifyingKey)
    ensures
        usable(seq![]) == Seq::<VerifyingKey>::empty(),
        usable(seq![Some(key)]) == seq![key],
        usable(seq![None::<VerifyingKey>]) == Seq::<VerifyingKey>::empty(),
{
    reveal_with_fuel(usable, 2);
    assert(seq![Some(key)].drop_last() =~= seq![]);
    assert(seq![None::<VerifyingKey>].drop_last() =~= seq![]);
}

} // verus!
