//! First request stage: read the bearer token from the authorization header.
use vstd::prelude::*;
use vstd::string::StrSliceExecFns;
use crate::errors::AuthError;
use super::AuthTokenContext;

verus! {

/// The header value starts with the scheme `Token` and one space.
pub open spec fn has_token_scheme(h: Seq<char>) -> bool {
    &&& h.len() >= 6
    &&& h[0] == 'T'
    &&& h[1] == 'o'
    &&& h[2] == 'k'
    &&& h[3] == 'e'
    &&& h[4] == 'n'
    &&& h[5] == ' '
}

/// The first index at or after `from` that holds a space, or the length.
pub open spec fn word_end(h: Seq<char>, from: int) -> int
    decreases h.len() - from,
{
    if from >= h.len() || from < 0 || h[from] == ' ' {
        from
    } else {
        word_end(h, from + 1)
    }
}

/// The token of a header value `Token <token>`: the text after the scheme up
/// to the next space. Any other value carries none.
pub open spec fn header_token(h: Seq<char>) -> Option<Seq<char>> {
    if has_token_scheme(h) {
        Some(h.subrange(6, word_end(h, 6)))
    } else {
        None
    }
}

proof fn lemma_word_end_bounds(h: Seq<char>, from: int)
    requires
        0 <= from <= h.len(),
    ensures
        from <= word_end(h, from) <= h.len(),
    decreases h.len() - from,
{
    if from < h.len() && h[from] != ' ' {
        lemma_word_end_bounds(h, from + 1);
    }
}

/// Builds the first stage.
#[derive(Clone, Copy)]
pub struct AuthTokenMiddlewareFactory {}

impl AuthTokenMiddlewareFactory {
    /// The factory.
    pub fn new() -> (r: Self) {
        AuthTokenMiddlewareFactory {  }
    }

    /// The stage that this factory builds.
    pub fn new_transform(&self) -> (r: AuthTokenMiddleware) {
        AuthTokenMiddleware {  }
    }
}

/// The first stage, applied to every request.
pub struct AuthTokenMiddleware {}

impl AuthTokenMiddleware {
    /// Reads the authorization header, if any. No header: no context, and the
    /// request goes on anonymously. A value `Token <token>`: a context holding
    /// the token. Any other value is malformed.
    pub fn construct_context(&self, header: Option<&str>) -> (r: Result<
        Option<AuthTokenContext>,
        AuthError,
    >)
        ensures
            (match header {
                None => r matches Ok(None),
                Some(h) => match header_token(h@) {
                    Some(t) => r matches Ok(Some(c)) && c.token@ == t,
                    None => r == Err::<Option<AuthTokenContext>, AuthError>(
                        AuthError::MalformedAuthorizationHeader,
                    ),
                },
            }),
    {
        let h = match header {
            None => return Ok(None),
            Some(h) => h,
        };
        let n = h.unicode_len();
        if n < 6 || h.get_char(0) != 'T' || h.get_char(1) != 'o' || h.get_char(2) != 'k'
            || h.get_char(3) != 'e' || h.get_char(4) != 'n' || h.get_char(5) != ' ' {
            return Err(AuthError::MalformedAuthorizationHeader);
        }
        let mut i: usize = 6;
        while i < n && h.get_char(i) != ' '
            invariant
                n == h@.len(),
                6 <= i <= n,
                word_end(h@, 6) == word_end(h@, i as int),
            decreases n - i,
        {
            i = i + 1;
        }
        let token = h.substring_char(6, i);
        Ok(Some(AuthTokenContext::new(token.to_owned())))
    }
}

} // verus!
