use vstd::prelude::*;

use crate::conf::{lemma_owner_by_token, owner_by_token, Conf};

verus! {

/// The owner in whose name a request is made.
#[derive(Debug, PartialEq)]
pub struct TokenAuth {
    pub owner: String,
}

/// A request that brings no token, or none that is known.
#[derive(Debug, Clone, Copy, PartialEq, Eq, Structural)]
pub struct AuthError;

/// The owner in whose name a request with the header `authorization` is
/// made: the one that the configuration knows by the header's value.
pub open spec fn authorized(authorization: Option<Seq<char>>, entries: Seq<(Seq<char>, Seq<char>)>) -> Option<
    Seq<char>,
> {
    match authorization {
        Some(token) => owner_by_token(entries, token),
        None => None,
    }
}

/// The value of a header as plain values.
pub open spec fn header_view(header: Option<&str>) -> Option<Seq<char>> {
    match header {
        Some(value) => Some(value@),
        None => None,
    }
}

impl TokenAuth {
    /// Resolves the `Authorization` header of a request to an owner. A
    /// request without the header is refused, and so is one whose header is
    /// no owner's token.
    pub fn from_request(authorization: Option<&str>, conf: &Conf) -> (outcome: Result<
        TokenAuth,
        AuthError,
    >)
        ensures
            outcome is Ok <==> authorized(header_view(authorization), conf@) is Some,
            outcome matches Ok(auth) ==> authorized(header_view(authorization), conf@) == Some(
                auth.owner@,
            ),
            outcome matches Ok(auth) ==> authorization matches Some(token) && exists|i: int|
                0 <= i < conf@.len() && #[trigger] conf@[i] == (auth.owner@, token@),
    {
        let token = match authorization {
            Some(token) => token,
            None => {
                return Err(AuthError);
            },
        };
        proof {
            lemma_owner_by_token(conf@, token@);
        }
        match conf.owner_of(token) {
            Some(owner) => Ok(TokenAuth { owner }),
            None => Err(AuthError),
        }
    }
}

} // verus!
