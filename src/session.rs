use vstd::prelude::*;

verus! {

/// The signed-in user, as the identity provider's claims give it.
#[derive(Clone, Debug, PartialEq, Eq)]
pub struct User {
    pub nickname: String,
    pub name: String,
    pub picture: String,
    pub updated_at: String,
    pub sub: String,
}

/// The session: the signed-in user, if any, and the bearer token for calls
/// to the backend.
#[derive(Clone, Debug, PartialEq, Eq)]
pub struct Context {
    pub user: Option<User>,
    pub token: Option<String>,
}

impl Context {
    /// A session with no user and no token.
    pub fn anonymous() -> (r: Context)
        ensures
            r.user.is_none(),
            r.token.is_none(),
    {
        Context { user: None, token: None }
    }
}

/// What the identity provider needs to start: its domain, the application's
/// client id and the audience of the tokens.
#[derive(Clone, Debug, PartialEq, Eq)]
pub struct AuthConfig {
    pub domain: String,
    pub client_id: String,
    pub audience: String,
}

/// What an initialized identity provider reports of the current user.
#[derive(Clone, Debug, PartialEq, Eq)]
pub enum Identity {
    /// No user is signed in.
    Anonymous,
    /// A user is signed in, and the claims decoded.
    Claims(User),
    /// A user is signed in, but the claims did not decode.
    Undecodable,
}

} // verus!
