//! The values the authentication interceptor attaches to every outgoing
//! request.

use vstd::prelude::*;

verus! {

/// The bearer line for the authorization header: the word `Bearer`, a space,
/// and the token.
pub fn bearer_auth_value(token: &str) -> (r: String)
    ensures
        r@ == "Bearer "@ + token@,
{
    let mut r = "Bearer ".to_owned();
    r.append(token);
    r
}

/// The client identification sent under the x-app-name header.
pub fn x_app_name_value() -> (r: String)
    ensures
        r@ == "rust_sdk"@,
{
    "rust_sdk".to_owned()
}

} // verus!
