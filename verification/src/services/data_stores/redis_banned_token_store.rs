//! The computable part of the TTL key-value revoked-token backend: how a
//! token is mapped to its key. The backend itself talks to the key-value
//! server and lives with the application shell.

use vstd::prelude::*;
use vstd::string::StringExecFns;

verus! {

/// The key under which a revoked token is stored: a store-specific prefix
/// to keep this entry family apart from others in the same keyspace.
pub fn get_key(token: &str) -> (r: String)
    ensures
        r@ == "banned_token:"@ + token@,
{
    let mut key = String::from_str("banned_token:");
    key.append(token);
    key
}

} // verus!
