//! The authentication variants without query parameters.
use vstd::prelude::*;

verus! {

/// How a source authenticates its requests (without query parameters).
pub enum Auth {
    NoAuth,
    Basic { username: String, password: String },
    Bearer { token: String },
}

impl Auth {
    /// The user name of basic authentication.
    pub fn username(&self) -> (res: Option<String>)
        ensures
            match self {
                Auth::Basic { username, .. } => res == Some(*username),
                _ => res is None,
            },
    {
        if let Auth::Basic { username, password: _ } = self {
            return Some(username.clone());
        }
        None
    }

    /// The password of basic authentication.
    pub fn password(&self) -> (res: Option<String>)
        ensures
            match self {
                Auth::Basic { password, .. } => res == Some(*password),
                _ => res is None,
            },
    {
        if let Auth::Basic { username: _, password } = self {
            return Some(password.clone());
        }
        None
    }

    /// The token of bearer authentication.
    pub fn token(&self) -> (res: Option<String>)
        ensures
            match self {
                Auth::Bearer { token } => res == Some(*token),
                _ => res is None,
            },
    {
        if let Auth::Bearer { token } = self {
            return Some(token.clone());
        }
        None
    }

    /// The name under which the variant is stored: `none`, `basic` or `bearer`.
    pub fn to_string(&self) -> (res: String)
        ensures
            res@ == match self {
                Auth::NoAuth => "none"@,
                Auth::Basic { .. } => "basic"@,
                Auth::Bearer { .. } => "bearer"@,
            },
    {
        String::from_str(match self {
            Auth::NoAuth => "none",
            Auth::Basic { username: _, password: _ } => "basic",
            Auth::Bearer { token: _ } => "bearer",
        })
    }
}

} // verus!
