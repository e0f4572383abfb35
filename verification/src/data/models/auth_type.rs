//! The authentication variants as stored in the `auth_type` column.
use vstd::prelude::*;

verus! {

/// The authentication variants as stored in the `auth_type` column.
pub enum AuthType {
    NoAuth,
    Basic { username: String, password: String },
    Bearer { token: String },
}

impl AuthType {
    /// The name under which the variant is stored: `none`, `basic` or `bearer`.
    pub fn to_string(&self) -> (res: String)
        ensures
            res@ == match self {
                AuthType::NoAuth => "none"@,
                AuthType::Basic { .. } => "basic"@,
                AuthType::Bearer { .. } => "bearer"@,
            },
    {
        match self {
            AuthType::NoAuth => String::from_str("none"),
            AuthType::Basic { username: _, password: _ } => String::from_str("basic"),
            AuthType::Bearer { token: _ } => String::from_str("bearer"),
        }
    }

    /// The user name of basic authentication.
    pub fn username(&self) -> (res: Option<String>)
        ensures
            match self {
                AuthType::Basic { username, .. } => res == Some(*username),
                _ => res is None,
            },
    {
        if let AuthType::Basic { username, password: _ } = self {
            return Some(username.clone());
        }
        None
    }

    /// The password of basic authentication.
    pub fn password(&self) -> (res: Option<String>)
        ensures
            match self {
                AuthType::Basic { password, .. } => res == Some(*password),
                _ => res is None,
            },
    {
        if let AuthType::Basic { username: _, password } = self {
            return Some(password.clone());
        }
        None
    }

    /// The token of bearer authentication.
    pub fn token(&self) -> (res: Option<String>)
        ensures
            match self {
                AuthType::Bearer { token } => res == Some(*token),
                _ => res is None,
            },
    {
        if let AuthType::Bearer { token } = self {
            return Some(token.clone());
        }
        None
    }
}

} // verus!
