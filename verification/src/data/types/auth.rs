//! How a source authenticates its requests.
use vstd::prelude::*;
use crate::config::error::{Error, Failure};
use crate::config::yaml_parser::{not_str, spec_str_option, spec_string_req, YamlParser};
use crate::yaml::{opt_node, YamlValue};

pub mod auth;

verus! {

/// How a source authenticates its requests.
pub enum Auth {
    NoAuth,
    Basic { username: String, password: String },
    Bearer { token: String },
    /// A query parameter `(key, value)` added to the request.
    Param(String, String),
}

/// The variants of `Auth`, without their data.
#[derive(PartialEq, Eq, Structural)]
pub enum AuthKind {
    NoAuth,
    Basic,
    Bearer,
    Param,
}

/// What an `Auth` holds, as plain text.
pub enum AuthView {
    NoAuth,
    Basic { username: Seq<char>, password: Seq<char> },
    Bearer { token: Seq<char> },
    Param(Seq<char>, Seq<char>),
}

impl View for Auth {
    type V = AuthView;

    open spec fn view(&self) -> AuthView {
        match self {
            Auth::NoAuth => AuthView::NoAuth,
            Auth::Basic { username, password } => AuthView::Basic { username: username@, password: password@ },
            Auth::Bearer { token } => AuthView::Bearer { token: token@ },
            Auth::Param(k, v) => AuthView::Param(k@, v@),
        }
    }
}

/// The name under which each variant is stored.
pub open spec fn auth_tag(kind: AuthKind) -> Seq<char> {
    match kind {
        AuthKind::NoAuth => "none"@,
        AuthKind::Basic => "basic"@,
        AuthKind::Bearer => "bearer"@,
        AuthKind::Param => "param"@,
    }
}

/// The variant stored under the name `tag`; any unknown name reads as `NoAuth`.
pub open spec fn kind_of_tag(tag: Seq<char>) -> AuthKind {
    if tag == "basic"@ {
        AuthKind::Basic
    } else if tag == "bearer"@ {
        AuthKind::Bearer
    } else if tag == "param"@ {
        AuthKind::Param
    } else {
        AuthKind::NoAuth
    }
}

/// The message of an unknown authentication type in the configuration.
pub open spec fn invalid_auth_type(t: Seq<char>) -> Seq<char> {
    "Source auth type `"@ + t + "` invalid."@
}

/// The authentication described by an optional configuration node.
pub open spec fn spec_auth_config(value: Option<YamlValue>) -> Result<AuthView, Failure> {
    match value {
        None => Ok(AuthView::NoAuth),
        Some(node) => match spec_str_option(node.spec_get("type"@), not_str()) {
            Err(f) => Err(f),
            Ok(None) => Ok(AuthView::NoAuth),
            Ok(Some(t)) => if t == "none"@ {
                Ok(AuthView::NoAuth)
            } else if t == "basic"@ {
                match spec_string_req(node, "username"@) {
                    Err(f) => Err(f),
                    Ok(u) => match spec_string_req(node, "password"@) {
                        Err(f) => Err(f),
                        Ok(p) => Ok(AuthView::Basic { username: u, password: p }),
                    },
                }
            } else if t == "bearer"@ {
                match spec_string_req(node, "token"@) {
                    Err(f) => Err(f),
                    Ok(tk) => Ok(AuthView::Bearer { token: tk }),
                }
            } else if t == "param"@ {
                match spec_string_req(node, "key"@) {
                    Err(f) => Err(f),
                    Ok(k) => match spec_string_req(node, "value"@) {
                        Err(f) => Err(f),
                        Ok(v) => Ok(AuthView::Param(k, v)),
                    },
                }
            } else {
                Err(Failure::Text(invalid_auth_type(t)))
            },
        },
    }
}

impl Auth {
    /// The variant of `self`.
    pub open spec fn spec_kind(&self) -> AuthKind {
        match self {
            Auth::NoAuth => AuthKind::NoAuth,
            Auth::Basic { .. } => AuthKind::Basic,
            Auth::Bearer { .. } => AuthKind::Bearer,
            Auth::Param(..) => AuthKind::Param,
        }
    }

    /// The user name of basic authentication.
    pub fn username(&self) -> (res: Option<String>)
        ensures
            match self {
                Auth::Basic { username, .. } => res == Some(*username),
                _ => res is None,
            },
    {
        if let Auth::Basic { username, password: _ } = self {
            return Some(username.clone());
        }
        None
    }

    /// The password of basic authentication.
    pub fn password(&self) -> (res: Option<String>)
        ensures
            match self {
                Auth::Basic { password, .. } => res == Some(*password),
                _ => res is None,
            },
    {
        if let Auth::Basic { username: _, password } = self {
            return Some(password.clone());
        }
        None
    }

    /// The token of bearer authentication.
    pub fn token(&self) -> (res: Option<String>)
        ensures
            match self {
                Auth::Bearer { token } => res == Some(*token),
                _ => res is None,
            },
    {
        if let Auth::Bearer { token } = self {
            return Some(token.clone());
        }
        None
    }

    /// The query parameter of parameter authentication.
    pub fn param(&self) -> (res: Option<(String, String)>)
        ensures
            match self {
                Auth::Param(k, v) => res == Some((*k, *v)),
                _ => res is None,
            },
    {
        if let Auth::Param(key, value) = self {
            return Some((key.clone(), value.clone()));
        }
        None
    }

    /// The name under which the variant is stored.
    pub fn to_string(&self) -> (res: String)
        ensures
            res@ == auth_tag(self.spec_kind()),
    {
        String::from_str(match self {
            Auth::NoAuth => "none",
            Auth::Basic { username: _, password: _ } => "basic",
            Auth::Bearer { token: _ } => "bearer",
            Auth::Param(_, _) => "param",
        })
    }

    /// The variant stored under the name `tag` (any other name reads as `NoAuth`).
    pub fn kind_from_tag(tag: &str) -> (res: AuthKind)
        ensures
            res == kind_of_tag(tag@),
    {
        if crate::text::str_eq(tag, "basic") {
            AuthKind::Basic
        } else if crate::text::str_eq(tag, "bearer") {
            AuthKind::Bearer
        } else if crate::text::str_eq(tag, "param") {
            AuthKind::Param
        } else {
            AuthKind::NoAuth
        }
    }

    /// The authentication of a source, from the optional `auth` node of its
    /// configuration, read in the way `Body::try_from` reads a body: `type`
    /// is one of `none` (or absent), `basic` (with `username` and `password`),
    /// `bearer` (with `token`) and `param` (with `key` and `value`, the names
    /// this reader chooses for the query parameter); any other type is
    /// refused with "Source auth type `...` invalid.".
    pub fn try_from(value: Option<&YamlValue>) -> (res: Result<Auth, Error>)
        ensures
            match res {
                Ok(a) => spec_auth_config(opt_node(value)) == Ok::<AuthView, Failure>(a@),
                Err(e) => spec_auth_config(opt_node(value)) matches Err(f) && e.shows(f),
            },
    {
        let node = match value {
            None => return Ok(Auth::NoAuth),
            Some(node) => node,
        };
        let t = match YamlParser::to_str_option(node.get("type")) {
            Err(e) => return Err(e),
            Ok(None) => return Ok(Auth::NoAuth),
            Ok(Some(t)) => t,
        };
        if crate::text::str_eq(t, "none") {
            Ok(Auth::NoAuth)
        } else if crate::text::str_eq(t, "basic") {
            let username = match YamlParser::to_string_req(node, "username") {
                Ok(u) => u,
                Err(e) => return Err(e),
            };
            let password = match YamlParser::to_string_req(node, "password") {
                Ok(p) => p,
                Err(e) => return Err(e),
            };
            Ok(Auth::Basic { username, password })
        } else if crate::text::str_eq(t, "bearer") {
            match YamlParser::to_string_req(node, "token") {
                Ok(token) => Ok(Auth::Bearer { token }),
                Err(e) => Err(e),
            }
        } else if crate::text::str_eq(t, "param") {
            let key = match YamlParser::to_string_req(node, "key") {
                Ok(k) => k,
                Err(e) => return Err(e),
            };
            let val = match YamlParser::to_string_req(node, "value") {
                Ok(v) => v,
                Err(e) => return Err(e),
            };
            Ok(Auth::Param(key, val))
        } else {
            let mut m = String::from_str("Source auth type `");
            m.append(t);
            m.append("` invalid.");
            Err(Error::String(m))
        }
    }
}

/// Reading back the stored name of an authentication gives its variant.
pub proof fn lemma_auth_tag_round_trip(kind: AuthKind)
    ensures
        kind_of_tag(auth_tag(kind)) == kind,
{
    reveal_strlit("none");
    reveal_strlit("basic");
    reveal_strlit("bearer");
    reveal_strlit("param");
    assert("none"@.len() == 4 && "basic"@.len() == 5 && "bearer"@.len() == 6 && "param"@.len() == 5);
    assert("param"@[0] != "basic"@[0]);
}

} // verus!
