//! What stands between a request and its route: the rate limiter and the
//! check of the caller's credentials.

pub mod authentication;
pub mod rate_limit;
