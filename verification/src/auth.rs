//! Checking the bearer token of an upload request.
use vstd::prelude::*;
use jwt_simple::prelude::MACLike;
use crate::text::{remove_all, without_matches};

verus! {

broadcast use vstd::string::group_string_axioms;

/// The token carried by an `Authorization` header value: the value with
/// every `Bearer ` taken out.
pub fn bearer_token(header: &str) -> (token: String)
    ensures
        token@ == without_matches(header@, "Bearer "@),
{
    proof {
        reveal_strlit("Bearer ");
    }
    remove_all(header, "Bearer ")
}

/// Whether `token` is well formed and carries the HS256 authentication
/// tag that `key` computes for it: the part of `jwt_simple`'s check that
/// depends on the key and the token alone.
pub uninterp spec fn hs256_tag_matches(key: Seq<u8>, token: Seq<char>) -> bool;

/// Checks `token` with `jwt_simple`: the key is `HS256Key::from_bytes(key)`
/// and the check is `verify_token::<NoCustomClaims>(token, None)`, with
/// the default verification options (`from_bytes` only copies the key
/// bytes). Whether a token passes also depends on the current time (expiry
/// and not-before claims), so the contract states only what the source
/// shows for every outcome: keys shorter than 12 bytes are refused as weak
/// before anything else is looked at, and a token passes only after its
/// authentication tag has been checked against the key (named
/// `hs256_tag_matches`). The time-dependent claim checks are left unsaid.
#[verifier::external_body]
pub(crate) fn verify_hs256_token(key: &[u8], token: &str) -> (ok: bool)
    ensures
        key@.len() < 12 ==> !ok,
        ok ==> hs256_tag_matches(key@, token@),
{
    let key = jwt_simple::algorithms::HS256Key::from_bytes(key);
    key.verify_token::<jwt_simple::claims::NoCustomClaims>(token, None).is_ok()
}

} // verus!
