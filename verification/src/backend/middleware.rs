//! What the authentication layer of the server decides: the token a
//! request carries, and the user its validated claims name.

use vstd::prelude::*;
use crate::backend::auth::JwtClaims;
use crate::ident::{uuid_parse, uuid_parse_result, uuid_text};

verus! {

/// Errors of the authentication layer.
#[derive(Debug)]
pub enum MiddlewareError {
    MissingAuth,
    AuthFailed(String),
}

impl MiddlewareError {
    /// The error's text.
    pub open spec fn describe(&self) -> Seq<char> {
        match self {
            MiddlewareError::MissingAuth => "missing or invalid authorization header"@,
            MiddlewareError::AuthFailed(m) => "authentication failed: "@ + m@,
        }
    }

    /// The error's text.
    pub fn message(&self) -> (s: String)
        ensures
            s@ == self.describe(),
    {
        match self {
            MiddlewareError::MissingAuth => String::from_str("missing or invalid authorization header"),
            MiddlewareError::AuthFailed(m) => String::from_str("authentication failed: ").concat(
                m.as_str(),
            ),
        }
    }
}

/// The user that a validated token names.
#[derive(Debug)]
pub struct AuthenticatedUser {
    pub user_id: u128,
    pub device_id: String,
}

/// The scheme that precedes a token in an `Authorization` header.
pub open spec fn bearer_prefix() -> Seq<char> {
    seq!['B', 'e', 'a', 'r', 'e', 'r', ' ']
}

/// The token of an `Authorization` header of the form `Bearer <token>`
/// (the scheme's case and its single space are exact); nothing for any
/// other header.
pub fn bearer_token(header: &str) -> (r: Option<&str>)
    ensures
        header@.len() >= 7 && header@.subrange(0, 7) == bearer_prefix() ==> (r matches Some(t)
            && t@ == header@.subrange(7, header@.len() as int)),
        !(header@.len() >= 7 && header@.subrange(0, 7) == bearer_prefix()) ==> r is None,
{
    let n = header.unicode_len();
    if n < 7 {
        return None;
    }
    let ok = header.get_char(0) == 'B' && header.get_char(1) == 'e' && header.get_char(2) == 'a'
        && header.get_char(3) == 'r' && header.get_char(4) == 'e' && header.get_char(5) == 'r'
        && header.get_char(6) == ' ';
    if !ok {
        proof {
            assert(header@.subrange(0, 7) != bearer_prefix()) by {
                if header@.subrange(0, 7) == bearer_prefix() {
                    assert(header@.subrange(0, 7)[0] == header@[0]);
                    assert(header@.subrange(0, 7)[1] == header@[1]);
                    assert(header@.subrange(0, 7)[2] == header@[2]);
                    assert(header@.subrange(0, 7)[3] == header@[3]);
                    assert(header@.subrange(0, 7)[4] == header@[4]);
                    assert(header@.subrange(0, 7)[5] == header@[5]);
                    assert(header@.subrange(0, 7)[6] == header@[6]);
                }
            }
        }
        return None;
    }
    assert(header@.subrange(0, 7) =~= bearer_prefix());
    Some(header.substring_char(7, n))
}

/// The user named by validated claims: the UUID their subject reads as,
/// and their device; nothing when the subject is no UUID. Claims issued
/// for a user name that user.
pub fn authenticated_user(claims: &JwtClaims) -> (r: Option<AuthenticatedUser>)
    ensures
        r matches Some(u) ==> uuid_parse_result(claims.sub@) == Some(u.user_id) && u.device_id@
            == claims.device_id@,
        r is None ==> uuid_parse_result(claims.sub@) is None,
        forall|v: u128| claims.sub@ == #[trigger] uuid_text(v) ==> (r matches Some(u) && u.user_id
            == v),
{
    match uuid_parse(claims.sub.as_str()) {
        Some(user_id) => Some(AuthenticatedUser { user_id, device_id: claims.device_id.clone() }),
        None => None,
    }
}

} // verus!
