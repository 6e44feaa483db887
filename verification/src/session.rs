//! Sessions: the values that a session repository stores and returns, and
//! what the creation of a session decides before anything is stored.

use crate::error::AdapterError;
use vstd::prelude::*;

verus! {

/// Who vouches for a user that signs in through a third party.
#[derive(Debug, Clone, Copy, PartialEq, Eq, Structural)]
pub enum OAuthProvider {
    Google,
    Github,
}

/// How a session was authenticated.
#[derive(Debug, Clone, Copy, PartialEq, Eq, Structural)]
pub enum AuthType {
    Native,
    OAuth(OAuthProvider),
}

impl AuthType {
    /// The kind of a session that `provider` vouches for, or a native one
    /// where there is no provider.
    pub open spec fn of(provider: Option<OAuthProvider>) -> AuthType {
        match provider {
            Some(p) => AuthType::OAuth(p),
            None => AuthType::Native,
        }
    }

    /// The kind of a session that `provider` vouches for, or a native one
    /// where there is no provider.
    pub fn from_provider(provider: Option<OAuthProvider>) -> (kind: AuthType)
        ensures
            kind == AuthType::of(provider),
    {
        match provider {
            Some(p) => AuthType::OAuth(p),
            None => AuthType::Native,
        }
    }
}

/// What a user may do.
#[derive(Debug, Clone, Copy, PartialEq, Eq, Structural)]
pub enum Role {
    Admin,
    User,
}

/// A user, as far as sessions are concerned.
#[derive(Debug, Clone, PartialEq, Eq)]
pub struct User {
    pub id: String,
    pub email: String,
    pub username: String,
    pub phone: Option<String>,
    pub role: Role,
}

/// A stored session. Times are seconds since the Unix epoch; a session
/// without `expires_at` never expires.
#[derive(Debug, Clone, PartialEq, Eq)]
pub struct Session {
    pub id: String,
    pub user_id: String,
    pub username: String,
    pub email: String,
    pub phone: Option<String>,
    pub role: Role,
    pub csrf: String,
    pub oauth_token: Option<String>,
    pub expires_at: Option<i64>,
    pub auth_type: AuthType,
}

/// A session to insert.
#[derive(Debug, Clone, PartialEq, Eq)]
pub struct NewSession {
    pub user_id: String,
    pub username: String,
    pub email: String,
    pub phone: Option<String>,
    pub role: Role,
    pub csrf: String,
    pub oauth_token: Option<String>,
    pub expires_at: Option<i64>,
    pub auth_type: AuthType,
}

/// How long a refreshed session lives: thirty minutes, in seconds.
pub const REFRESH_SECONDS: i64 = 1800;

/// When a session made at `now` expires: `after` seconds from `now`, or
/// never where `after` is `None`. A time past the last second that can be
/// told is never, and one before the first is the first.
pub open spec fn expiry(now: i64, after: Option<i64>) -> Option<i64> {
    match after {
        None => None,
        Some(seconds) => if now + seconds > i64::MAX {
            None
        } else if now + seconds < i64::MIN {
            Some(i64::MIN)
        } else {
            Some((now + seconds) as i64)
        },
    }
}

/// When a session made at `now` expires.
pub fn expires_at(now: i64, after: Option<i64>) -> (at: Option<i64>)
    ensures
        at == expiry(now, after),
{
    match after {
        None => None,
        Some(seconds) => {
            let sum: i128 = now as i128 + seconds as i128;
            if sum > i64::MAX as i128 {
                None
            } else if sum < i64::MIN as i128 {
                Some(i64::MIN)
            } else {
                Some(sum as i64)
            }
        },
    }
}

/// The text of an optional string.
pub open spec fn text_of(value: Option<String>) -> Option<Seq<char>> {
    match value {
        Some(s) => Some(s@),
        None => None,
    }
}

/// The text of an optional string slice.
pub open spec fn text_of_str(value: Option<&str>) -> Option<Seq<char>> {
    match value {
        Some(s) => Some(s@),
        None => None,
    }
}

impl NewSession {
    /// The session to insert for `user`, made at `now`. It takes the
    /// user's id, name, e-mail, phone and role. If `None` is given for
    /// `expires_after`, the session never expires, otherwise it expires
    /// `expires_after` seconds from `now`. It is a native session unless a
    /// provider is given.
    pub fn prepare(
        user: &User,
        csrf: &str,
        expires_after: Option<i64>,
        oauth_token: Option<&str>,
        provider: Option<OAuthProvider>,
        now: i64,
    ) -> (new: NewSession)
        ensures
            new.user_id@ == user.id@,
            new.username@ == user.username@,
            new.email@ == user.email@,
            text_of(new.phone) == text_of(user.phone),
            new.role == user.role,
            new.csrf@ == csrf@,
            text_of(new.oauth_token) == text_of_str(oauth_token),
            new.expires_at == expiry(now, expires_after),
            new.auth_type == AuthType::of(provider),
    {
        let phone = match &user.phone {
            Some(p) => Some(p.clone()),
            None => None,
        };
        let oauth_token = match oauth_token {
            Some(t) => Some(String::from_str(t)),
            None => None,
        };
        NewSession {
            user_id: user.id.clone(),
            username: user.username.clone(),
            email: user.email.clone(),
            phone,
            role: user.role,
            csrf: String::from_str(csrf),
            oauth_token,
            expires_at: expires_at(now, expires_after),
            auth_type: AuthType::from_provider(provider),
        }
    }
}

impl Session {
    /// Whether the session has not expired at `now`.
    pub open spec fn live(self, now: i64) -> bool {
        match self.expires_at {
            Some(at) => at > now,
            None => true,
        }
    }

    /// Whether the session has not expired at `now`.
    pub fn is_live(&self, now: i64) -> (live: bool)
        ensures
            live == self.live(now),
    {
        match self.expires_at {
            Some(at) => at > now,
            None => true,
        }
    }
}

/// The repository of sessions, over a connection or a transaction of type
/// `C`. A session that is asked for and does not exist is
/// `AdapterError::DoesNotExist`.
pub trait SessionRepository<C> {
    /// Create a session.
    fn create(
        conn: &mut C,
        user: &User,
        csrf: &str,
        expires_after: Option<i64>,
        oauth_token: Option<&str>,
        provider: Option<OAuthProvider>,
    ) -> Result<Session, AdapterError>;

    /// Get the unexpired session that goes with the CSRF token.
    fn get_valid_by_id(conn: &mut C, id: &str, csrf: &str) -> Result<Session, AdapterError>;

    /// Move the session's expiry to thirty minutes from now.
    fn refresh(conn: &mut C, id: &str, csrf: &str) -> Result<Session, AdapterError>;

    /// Move the session's expiry to now.
    fn expire(conn: &mut C, id: &str) -> Result<Session, AdapterError>;

    /// Expire all sessions of a user. A session id can be given to leave
    /// that session out.
    fn purge(conn: &mut C, user_id: &str, skip: Option<&str>) -> Result<
        Vec<Session>,
        AdapterError,
    >;

    /// Update the OAuth access token of all sessions of a user with the
    /// provider.
    fn update_access_tokens(
        conn: &mut C,
        access_token: &str,
        user_id: &str,
        provider: OAuthProvider,
    ) -> Result<Vec<Session>, AdapterError>;
}

} // verus!
