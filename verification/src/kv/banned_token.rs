use vstd::prelude::*;
use vstd::string::StringExecFns;

verus! {

/// The storage key under which a revoked token is recorded: a fixed
/// prefix keeps revocations apart from other data in a shared keyspace.
pub fn get_key(token: &str) -> (r: String)
    ensures
        r@ == "banned_token:"@ + token@,
{
    String::from_str("banned_token:").concat(token)
}

} // verus!
