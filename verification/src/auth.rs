//! GitHub credentials and their validation: a user name and a personal
//! access token, both required to be present and non-empty.

use vstd::prelude::*;
use crate::errors::GhrrError;

verus! {

/// The GitHub user name and personal access token the tool runs as.
#[derive(Debug, Clone)]
pub struct AuthCredentials {
    /// Value of `GITHUB_USER`.
    pub username: String,
    /// Value of `GITHUB_TOKEN`.
    pub token: String,
}

/// The message reported when the user name is missing or empty.
pub open spec fn missing_user_message() -> Seq<char> {
    "Please add GITHUB_USER environment variable"@
}

/// The message reported when the token is missing or empty.
pub open spec fn missing_token_message() -> Seq<char> {
    "Please add GITHUB_TOKEN environment variable"@
}

/// Whether a looked-up setting counts as given: present and non-empty.
pub open spec fn is_given(v: Option<String>) -> bool {
    match v {
        Some(s) => s@.len() > 0,
        None => false,
    }
}

impl AuthCredentials {
    /// Validates the looked-up values of `GITHUB_USER` and `GITHUB_TOKEN`.
    ///
    /// The user name is checked first: when it is missing or empty the
    /// user-name error is returned whatever the token is; otherwise a
    /// missing or empty token gives the token error.
    pub fn from_env_values(user: Option<String>, token: Option<String>) -> (res: Result<
        AuthCredentials,
        GhrrError,
    >)
        ensures
            !is_given(user) ==> (res matches Err(GhrrError::Auth(m)) && m@
                == missing_user_message()),
            is_given(user) && !is_given(token) ==> (res matches Err(GhrrError::Auth(m)) && m@
                == missing_token_message()),
            is_given(user) && is_given(token) ==> (res matches Ok(c) && Some(c.username) == user
                && Some(c.token) == token),
    {
        let username = match user {
            Some(u) if !u.as_str().is_empty() => u,
            _ => {
                return Err(
                    GhrrError::Auth(String::from_str("Please add GITHUB_USER environment variable")),
                );
            },
        };
        let token = match token {
            Some(t) if !t.as_str().is_empty() => t,
            _ => {
                return Err(
                    GhrrError::Auth(String::from_str("Please add GITHUB_TOKEN environment variable")),
                );
            },
        };
        Ok(AuthCredentials { username, token })
    }
}

} // verus!
