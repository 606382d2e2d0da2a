use vstd::prelude::*;

verus! {

/// The cookie that carries the session token.
pub const JWT_COOKIE_NAME: &'static str = "jwt";

pub const DEFAULT_REDIS_HOSTNAME: &'static str = "127.0.0.1";

} // verus!
