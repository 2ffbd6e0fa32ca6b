use vstd::prelude::*;

use nostr_sdk::key::FromSkStr;
use nostr_sdk::Client;
use nostr_sdk::Keys;

verus! {

/// Declares nostr_sdk::Keys — a messaging identity — so that it can stand
/// in signatures and fields; its values are opaque here.
#[verifier::external_type_specification]
#[verifier::external_body]
pub struct ExKeys(Keys);

/// Declares nostr_sdk::Client — the relay-pool messaging client — so that
/// the session can hold it; its values are opaque here and only the host
/// calls into it.
#[verifier::external_type_specification]
#[verifier::external_body]
pub struct ExClient(Client);

/// Errors when building a messaging identity from a key string.
#[derive(Debug, Clone, Copy, PartialEq, Eq)]
pub enum KeyError {
    /// The string parses as neither a hex nor a bech32 secret key.
    InvalidSecretKey,
}

/// Whether `s` parses as a secret key (hex or bech32). Which strings do is
/// left to the nostr key parser; it depends on the characters alone.
pub uninterp spec fn sk_str_ok(s: Seq<char>) -> bool;

/// Relies on nostr_sdk::Keys::from_sk_str: parses the string as a hex or
/// bech32 secret key, a pure function of the characters, and fails on
/// exactly the strings that are neither.
#[verifier::external_body]
fn keys_from_sk_str(s: &String) -> (r: Result<Keys, KeyError>)
    ensures
        r is Ok <==> sk_str_ok(s@),
{
    Keys::from_sk_str(s.as_str()).map_err(|_| KeyError::InvalidSecretKey)
}

/// Relies on nostr_sdk::Keys::generate: a fresh random identity from the
/// system's randomness. Nothing is promised of the value.
#[verifier::external_body]
fn keys_generate() -> Keys {
    Keys::generate()
}

/// Build a messaging identity: from the given secret key where one is
/// given, by generating a fresh key pair where none is.
pub fn handle_keys(private_key: Option<String>) -> (r: Result<Keys, KeyError>)
    ensures
        private_key matches Some(pk) ==> (r is Ok <==> sk_str_ok(pk@)),
        private_key is None ==> r is Ok,
        r matches Err(e) ==> e == KeyError::InvalidSecretKey,
{
    match private_key {
        Some(pk) => keys_from_sk_str(&pk),
        None => Ok(keys_generate()),
    }
}

} // verus!
