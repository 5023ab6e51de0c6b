//! Token claims and the authentication middleware's configuration.
use vstd::prelude::*;
use core::marker::PhantomData;

verus! {

/// What a token carries: an expiry in seconds since the Unix epoch, and the
/// user data.
#[derive(Clone, Debug)]
pub struct Claims<T> {
    pub exp: i64,
    pub data: T,
}

impl<T> Claims<T> {
    /// Claims for `data` issued at `now` that stay valid for `duration`
    /// seconds; none when the expiry does not fit in an `i64`.
    pub fn issue(data: T, now: i64, duration: i64) -> (r: Option<Claims<T>>)
        ensures
            r is Some <==> i64::MIN <= now + duration <= i64::MAX,
            r matches Some(c) ==> c.exp == now + duration && c.data == data,
    {
        match now.checked_add(duration) {
            Some(exp) => Some(Claims { exp, data }),
            None => None,
        }
    }
}

/// Middleware that admits requests carrying a valid token of user type `T`,
/// and lets through the paths that `allow` accepts without one.
#[derive(Debug)]
pub struct JwtAuth<T, A> {
    pub allow: A,
    pub marker: PhantomData<T>,
}

impl<T, A> JwtAuth<T, A> {
    /// Middleware whose unauthenticated paths are those `allow` accepts.
    pub fn new(allow: A) -> (r: JwtAuth<T, A>)
        ensures
            r.allow == allow,
    {
        JwtAuth { allow, marker: PhantomData }
    }
}

} // verus!
