//! Sessions and identity: the token pair, the shapes the identity
//! provider answers with, and their interpretation. The provider
//! calls themselves happen outside the crate; this module decides
//! what each answer means.

use vstd::prelude::*;

verus! {

/// Login form credentials.
#[derive(Debug, PartialEq, Eq)]
pub struct Credentials {
    pub email: String,
    pub password: String,
}

/// The authenticated identity as the provider reports it.
#[derive(Debug, PartialEq, Eq)]
pub struct User {
    pub id: String,
    pub email: String,
    pub is_anonymous: Option<bool>,
    pub role: Option<String>,
    pub aud: String,
}

/// The client-local token pair proving an authenticated identity to
/// the remote service.
#[derive(Debug, PartialEq, Eq)]
pub struct Session {
    pub access_token: String,
    pub refresh_token: String,
    pub expires_in: u64,
}

/// An error reported by the provider's user lookup.
#[derive(Debug, PartialEq, Eq)]
pub struct AuthError {}

/// An error reported by the provider's sign-in.
#[derive(Debug, PartialEq, Eq)]
pub struct AuthResponseError {}

/// A successful password sign-in: who signed in, and the session
/// proving it.
#[derive(Debug, PartialEq, Eq)]
pub struct UserWithSession {
    pub user: User,
    pub session: Session,
}

/// Options of an OAuth sign-in: where the provider sends the browser
/// back.
#[derive(Debug, PartialEq, Eq)]
pub struct Options {
    pub redirect_to: String,
}

/// An OAuth sign-in request.
#[derive(Debug, PartialEq, Eq)]
pub struct OAuthSignIn {
    pub provider: String,
    pub options: Options,
}

/// Interpret the provider's user lookup for the guard: an explicit
/// error and an absent user both mean "no user" — the guard treats
/// a failed check identically to an unauthenticated visitor.
pub fn interpret_get_user(user: Option<User>, error: Option<AuthError>) -> (r: Option<User>)
    ensures
        error is Some ==> r is None,
        error is None ==> r == user,
{
    match error {
        Some(_) => None,
        None => user,
    }
}

/// Interpret the provider's password sign-in answer: an explicit
/// error fails the sign-in, and so does an answer missing the user
/// or the session.
pub fn interpret_password_signin(
    user: Option<User>,
    session: Option<Session>,
    error: Option<AuthResponseError>,
) -> (r: Result<UserWithSession, AuthResponseError>)
    ensures
        r is Ok <==> error is None && user is Some && session is Some,
        r matches Ok(u) ==> u.user == user->0 && u.session == session->0,
{
    if let Some(e) = error {
        return Err(e);
    }
    match (user, session) {
        (Some(u), Some(s)) => Ok(UserWithSession { user: u, session: s }),
        _ => Err(AuthResponseError {  }),
    }
}

/// The sign-in request the Google button issues.
pub fn google_oauth_request() -> (r: OAuthSignIn)
    ensures
        r.provider@ == "google"@,
        r.options.redirect_to@ == "http://localhost:8081/callback"@,
{
    OAuthSignIn {
        provider: String::from_str("google"),
        options: Options { redirect_to: String::from_str("http://localhost:8081/callback") },
    }
}

/// The session adopted from the callback's token pair. The
/// fragment's required parameters carry no lifetime, so the adopted
/// session records none remaining.
pub fn adopt_session(access_token: String, refresh_token: String) -> (s: Session)
    ensures
        s.access_token == access_token,
        s.refresh_token == refresh_token,
        s.expires_in == 0,
{
    Session { access_token, refresh_token, expires_in: 0 }
}

/// The client-local storage key the session is persisted under,
/// derived from the application identifier.
pub fn storage_key(project_id: &str) -> (k: String)
    ensures
        k@ == "sb-"@ + project_id@ + "-auth-token"@,
{
    let mut k = String::from_str("sb-");
    k.append(project_id);
    k.append("-auth-token");
    k
}

/// The bearer header an outgoing request carries when a session is
/// present, and nothing otherwise.
pub fn authorization_header(session: &Option<Session>) -> (h: Option<(String, String)>)
    ensures
        session matches Some(s) ==> (h matches Some(p) && p.0@ == "Authorization"@ && p.1@
            == "Bearer "@ + s.access_token@),
        session is None ==> h is None,
{
    match session {
        Some(s) => {
            let mut bearer = String::from_str("Bearer ");
            bearer.append(s.access_token.as_str());
            Some((String::from_str("Authorization"), bearer))
        },
        None => None,
    }
}

} // verus!
