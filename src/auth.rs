//! Data exchanged during sign-in through GitHub's OAuth flow.

use vstd::prelude::*;

verus! {

/// Where to send the user once sign-in has begun or ended.
pub struct AuthorizationInit {
    pub url: String,
}

/// What GitHub hands back to the callback: a code and the state that began
/// the flow.
pub struct Authorization {
    pub code: String,
    pub state: String,
}

/// A token that GitHub granted.
pub struct AccessToken {
    pub access_token: String,
    pub scope: String,
    pub token_type: String,
}

/// A GitHub account, as its user endpoint describes it.
pub struct GitHubUser {
    pub login: String,
    pub id: u64,
    pub avatar_url: String,
    pub name: String,
    pub email: Option<String>,
    pub bio: String,
}

} // verus!
