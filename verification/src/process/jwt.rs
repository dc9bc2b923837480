//! What a token claims.

use crate::error::TextError;
use vstd::prelude::*;

verus! {

/// The claims of a token.
#[derive(Debug, Clone)]
pub struct Claims {
    /// For whom the token is meant.
    pub aud: String,
    /// When the token expires, in seconds since the epoch.
    pub exp: u64,
    /// Whom the token refers to.
    pub sub: String,
}

impl Claims {
    /// The claims of a token for `sub` and `aud` that is signed at `now`
    /// and good for `lifetime` seconds; none where it would expire beyond
    /// what a timestamp can hold.
    pub fn new(sub: &str, aud: &str, now: u64, lifetime: u64) -> (r: Result<Claims, TextError>)
        ensures
            match r {
                Ok(claims) => claims.sub@ == sub@ && claims.aud@ == aud@ && claims.exp == now
                    + lifetime,
                Err(e) => now + lifetime > u64::MAX && e == TextError::Expiry,
            },
    {
        match now.checked_add(lifetime) {
            Some(exp) => Ok(Claims { aud: aud.to_owned(), exp, sub: sub.to_owned() }),
            None => Err(TextError::Expiry),
        }
    }
}

} // verus!
