//! What a request tells of its sender before it reaches a handler.

use crate::text::without_char;
use vstd::prelude::*;

verus! {

/// The user that a request was proved to come from.
#[derive(Clone, Copy, Debug, PartialEq, Eq, Structural)]
pub struct Authentication(pub u128);

/// What the token store holds of a token.
#[derive(Clone, Copy, Debug, PartialEq, Eq, Structural)]
pub struct TokenRecord {
    /// Whether the token is neither expired nor revoked.
    pub valid: bool,
    /// The user the token was issued to, while that user exists.
    pub player: Option<u128>,
}

impl Authentication {
    /// The user that a token stands for: the one it was issued to, where the
    /// token is still valid.
    pub fn of_token(record: TokenRecord) -> (r: Option<Authentication>)
        ensures
            r == if record.valid && record.player is Some {
                Some(Authentication(record.player->0))
            } else {
                None
            },
    {
        if !record.valid {
            return None;
        }
        match record.player {
            Some(user) => Some(Authentication(user)),
            None => None,
        }
    }
}

/// The identification that a client sent of itself, without the characters
/// that would break out of a quoted label.
#[derive(Clone, Debug, PartialEq, Eq)]
pub struct UserAgent(pub String);

/// The text without backslashes and double quotes.
pub open spec fn spec_sanitized(raw: Seq<char>) -> Seq<char> {
    raw.filter(|c: char| c != '\\').filter(|c: char| c != '"')
}

impl UserAgent {
    pub fn of_header(raw: &str) -> (r: UserAgent)
        ensures
            r.0@ == spec_sanitized(raw@),
    {
        let without_backslashes = without_char(raw, '\\');
        UserAgent(without_char(without_backslashes.as_str(), '"'))
    }

    pub fn as_str(&self) -> (r: &str)
        ensures
            r@ == self.0@,
    {
        self.0.as_str()
    }
}

} // verus!
