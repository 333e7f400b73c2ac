//! Token rotation: a caller holding a token trades it for a fresh one.
use vstd::prelude::*;

use crate::outside::{is_ascii_alnum, random_alphanumeric};
use crate::status::StatusCode;

verus! {

/// The number of characters of a token.
pub const TOKEN_LENGTH: usize = 420;

/// A well-formed fresh token: `TOKEN_LENGTH` ASCII letters and digits.
pub open spec fn is_fresh_token(token: Seq<char>) -> bool {
    &&& token.len() == TOKEN_LENGTH
    &&& forall|i: int| 0 <= i < token.len() ==> is_ascii_alnum(#[trigger] token[i])
}

/// The answer to a token rotation.
pub enum TokenReply {
    /// The stored token was replaced by this one (`200`).
    Issued(String),
    /// No token, or it matched no stored one (`401`).
    Unauthorized,
    /// The update failed (`500`).
    InternalError,
}

impl TokenReply {
    pub open spec fn status_of(&self) -> StatusCode {
        match self {
            TokenReply::Issued(_) => StatusCode::Success,
            TokenReply::Unauthorized => StatusCode::Unauthorized,
            TokenReply::InternalError => StatusCode::InternalServerError,
        }
    }

    /// The status of the answer.
    pub fn status(&self) -> (s: StatusCode)
        ensures
            s == self.status_of(),
    {
        match self {
            TokenReply::Issued(_) => StatusCode::Success,
            TokenReply::Unauthorized => StatusCode::Unauthorized,
            TokenReply::InternalError => StatusCode::InternalServerError,
        }
    }
}

/// What to do next with a rotation request.
pub enum TokenStep {
    Reply(TokenReply),
    /// Replace the stored `old_token` by `new_token`.
    Rotate { old_token: String, new_token: String },
}

/// The step for a request with the given `token` cookie and a new token already
/// drawn: `401` without a cookie, otherwise replace the old token by the new one.
pub fn token_with(old_token: Option<String>, new_token: String) -> (step: TokenStep)
    ensures
        old_token is None ==> step matches TokenStep::Reply(TokenReply::Unauthorized),
        old_token matches Some(t) ==> step == (TokenStep::Rotate { old_token: t, new_token }),
{
    match old_token {
        Some(t) => TokenStep::Rotate { old_token: t, new_token },
        None => TokenStep::Reply(TokenReply::Unauthorized),
    }
}

/// The first step of `/token`: `401` without a `token` cookie, otherwise replace
/// the old token by a fresh random one.
pub fn token(old_token: Option<String>) -> (step: TokenStep)
    ensures
        old_token is None ==> step matches TokenStep::Reply(TokenReply::Unauthorized),
        old_token matches Some(t) ==> (step matches TokenStep::Rotate { old_token: o, new_token: n }
            && o == t && is_fresh_token(n@)),
{
    match old_token {
        Some(t) => {
            let new_token = random_alphanumeric(TOKEN_LENGTH);
            token_with(Some(t), new_token)
        },
        None => TokenStep::Reply(TokenReply::Unauthorized),
    }
}

/// How the database answered the update: the number of rows changed, or a
/// failure.
pub enum UpdateOutcome {
    Updated(u64),
    Failed,
}

/// The answer once the update has been tried: the new token when exactly one
/// stored token was replaced, `401` when none or several were, `500` when the
/// update failed.
pub fn token_outcome(new_token: String, outcome: UpdateOutcome) -> (reply: TokenReply)
    ensures
        outcome == UpdateOutcome::Updated(1) ==> reply == TokenReply::Issued(new_token),
        outcome matches UpdateOutcome::Updated(n) && n != 1 ==> reply is Unauthorized,
        outcome is Failed ==> reply is InternalError,
{
    match outcome {
        UpdateOutcome::Updated(rows) => {
            if rows == 1 {
                TokenReply::Issued(new_token)
            } else {
                TokenReply::Unauthorized
            }
        },
        UpdateOutcome::Failed => TokenReply::InternalError,
    }
}

} // verus!
