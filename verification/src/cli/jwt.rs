//! The token commands: sign and verify.

use crate::error::TextError;
use crate::process::jwt::Claims;
use vstd::prelude::*;

verus! {

/// Sign a token.
#[derive(Debug, Clone)]
pub struct JwtSignOpts {
    /// Whom the token refers to.
    pub sub: String,
    /// For whom the token is meant.
    pub aud: String,
    /// For how many seconds the token is good.
    pub exp: u64,
    pub key: String,
}

/// Verify a token.
#[derive(Debug, Clone)]
pub struct JwtVerifyOpts {
    pub token: String,
    pub key: String,
}

/// The token commands.
#[derive(Debug, Clone)]
pub enum JwtSubCommand {
    Sign(JwtSignOpts),
    Verify(JwtVerifyOpts),
}

impl JwtSignOpts {
    /// The claims of a token signed at the time `now`, in seconds since the
    /// epoch; none where it would expire beyond what a timestamp can hold.
    pub fn claims(&self, now: u64) -> (r: Result<Claims, TextError>)
        ensures
            match r {
                Ok(claims) => claims.sub@ == self.sub@ && claims.aud@ == self.aud@ && claims.exp
                    == now + self.exp,
                Err(e) => now + self.exp > u64::MAX && e == TextError::Expiry,
            },
    {
        Claims::new(self.sub.as_str(), self.aud.as_str(), now, self.exp)
    }
}

} // verus!
