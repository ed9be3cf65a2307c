use vstd::prelude::*;

verus! {

/// What the `AUTHENTICATE` command answers: the application, the user and
/// the granted scopes of the access token, and when it expires.
#[derive(Default, Debug)]
pub struct AuthData {
    pub application: Application,
    pub expires: String,
    pub user: User,
    pub scopes: Vec<String>,
}

/// The application that a token was issued to.
#[derive(Default, Debug)]
pub struct Application {
    pub description: String,
    pub icon: String,
    pub id: String,
    pub rpc_origins: Vec<String>,
    pub name: String,
}

/// A Discord user.
#[derive(Default, Debug)]
pub struct User {
    pub username: String,
    pub discriminator: String,
    pub id: String,
    pub avatar: String,
}

} // verus!
