//! The links that go out in e-mails.

use vstd::prelude::*;

verus! {

/// The link that completes a registration.
pub open spec fn registration_link(domain: Seq<char>, token: Seq<char>) -> Seq<char> {
    domain + "/auth/verify-registration-token?token="@ + token
}

/// The link that resets a password.
pub open spec fn reset_password_link(domain: Seq<char>, token: Seq<char>) -> Seq<char> {
    domain + "/auth/reset-password?token="@ + token
}

/// The link that completes a registration: the domain, the path of the
/// verification, and the token as the query.
pub fn registration_uri(domain: &str, token: &str) -> (uri: String)
    ensures
        uri@ == registration_link(domain@, token@),
{
    let mut uri = String::from_str(domain);
    uri.append("/auth/verify-registration-token?token=");
    uri.append(token);
    uri
}

/// The link that resets a password: the domain, the path of the reset, and
/// the token as the query.
pub fn reset_password_uri(domain: &str, token: &str) -> (uri: String)
    ensures
        uri@ == reset_password_link(domain@, token@),
{
    let mut uri = String::from_str(domain);
    uri.append("/auth/reset-password?token=");
    uri.append(token);
    uri
}

} // verus!
