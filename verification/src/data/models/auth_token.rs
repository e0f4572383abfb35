//! Bearer tokens that grant access to destinations.
use vstd::prelude::*;
use vstd::utf8::encode_utf8;
use rand::Rng;
use crate::api::Error as ApiError;
use crate::config::error::{Error, Failure};
use crate::config::yaml_parser::{spec_datetime_option, spec_string_req, YamlParser};
use crate::time::{utc_now, Timestamp};
use crate::utils::hasher::{sha256_digest, Hasher};
use crate::yaml::YamlValue;

verus! {

/// A bearer token: the SHA-256 digest of the token text, and the instant
/// after which it no longer grants access, if any.
pub struct AuthToken {
    pub id: Option<i32>,
    pub value: Vec<u8>,
    pub expiration: Option<Timestamp>,
}

/// `c` is an ASCII letter or digit.
pub open spec fn is_ascii_alphanumeric(c: char) -> bool {
    ('A' <= c && c <= 'Z') || ('a' <= c && c <= 'z') || ('0' <= c && c <= '9')
}

/// `rand::thread_rng().sample_iter(&Alphanumeric).take(len)`, each byte made a
/// `char` and collected: `len` characters drawn at random from `[A-Za-z0-9]`.
/// Which characters come out is left open.
#[verifier::external_body]
fn random_alphanumeric(len: usize) -> (res: String)
    ensures
        res@.len() == len,
        forall|i: int| 0 <= i < len ==> is_ascii_alphanumeric(#[trigger] res@[i]),
{
    rand::thread_rng().sample_iter(&rand::distributions::Alphanumeric).take(len).map(char::from).collect()
}

/// The stored value of a token whose text is `text`.
pub open spec fn token_value(text: Seq<char>) -> Seq<u8> {
    sha256_digest(encode_utf8(text))
}

/// The token (value and expiration) that an entry of the `auth_tokens`
/// section describes: a plain string is a token text that never expires; a
/// mapping holds the text under `value` and an optional `expiration`.
pub open spec fn spec_token_config(value: YamlValue) -> Result<(Seq<u8>, Option<(i64, u32)>), Failure> {
    match value {
        YamlValue::String(s) => Ok((token_value(s@), None)),
        YamlValue::Mapping(_) => match spec_string_req(value, "value"@) {
            Err(f) => Err(f),
            Ok(t) => match spec_datetime_option(value.spec_get("expiration"@)) {
                Err(f) => Err(f),
                Ok(e) => Ok((token_value(t), e)),
            },
        },
        _ => Err(Failure::Str("`Value` could not be converted to `AuthToken`"@)),
    }
}

/// An optional instant as a pair.
pub open spec fn opt_instant(t: Option<Timestamp>) -> Option<(i64, u32)> {
    match t {
        Some(t) => Some((t.secs, t.nanos)),
        None => None,
    }
}

impl AuthToken {
    /// Whether the token still grants access at the instant `now`: it has no
    /// expiration, or expires strictly after `now`.
    pub open spec fn spec_is_valid_at(&self, now: Timestamp) -> bool {
        match self.expiration {
            Some(e) => e.spec_is_after(now),
            None => true,
        }
    }

    /// A new token from 32 random letters and digits, stored as the digest
    /// of that text.
    pub fn new(expiration: Option<Timestamp>) -> (res: AuthToken)
        ensures
            res.id is None,
            res.expiration == expiration,
            res.value@.len() == 32,
            exists|text: Seq<char>|
                text.len() == 32 && (forall|i: int| 0 <= i < 32 ==> is_ascii_alphanumeric(#[trigger] text[i]))
                    && res.value@ == token_value(text),
    {
        let text = random_alphanumeric(32);
        let ghost t = text@;
        let value = Hasher::hash_string(text);
        assert(t.len() == 32 && (forall|i: int| 0 <= i < 32 ==> is_ascii_alphanumeric(#[trigger] t[i]))
            && value@ == token_value(t));
        AuthToken { id: None, value, expiration }
    }

    /// Whether the token still grants access at the instant `now`.
    pub fn is_valid_at(&self, now: &Timestamp) -> (res: bool)
        ensures
            res == self.spec_is_valid_at(*now),
    {
        match &self.expiration {
            Some(expiration) => expiration.is_after(now),
            None => true,
        }
    }

    /// Whether the token still grants access now, by the system clock.
    pub fn is_valid(&self) -> (res: bool)
        ensures
            self.expiration is None ==> res,
            exists|now: Timestamp| res == self.spec_is_valid_at(now),
    {
        let now = utc_now();
        let res = self.is_valid_at(&now);
        assert(res == self.spec_is_valid_at(now));
        res
    }

    /// The new token (without an id) that an entry of the `auth_tokens`
    /// section describes. The configured text is stored as its SHA-256 digest
    /// (`Hasher::hash_string`), the same form as a generated token and the
    /// form in which `bearer_token`'s result is looked up.
    pub fn from_config(value: &YamlValue) -> (res: Result<AuthToken, Error>)
        ensures
            match res {
                Ok(t) => t.id is None && spec_token_config(*value) == Ok::<(Seq<u8>, Option<(i64, u32)>), Failure>((t.value@, opt_instant(t.expiration))),
                Err(e) => spec_token_config(*value) matches Err(f) && e.shows(f),
            },
    {
        match value {
            YamlValue::String(val) => {
                let v = Hasher::hash_string(val.clone());
                Ok(AuthToken { id: None, value: v, expiration: None })
            },
            YamlValue::Mapping(_) => {
                let text = match YamlParser::to_string_req(value, "value") {
                    Ok(t) => t,
                    Err(e) => return Err(e),
                };
                let expiration = match YamlParser::to_datetime_option(value.get("expiration")) {
                    Ok(e) => e,
                    Err(e) => return Err(e),
                };
                Ok(AuthToken { id: None, value: Hasher::hash_string(text), expiration })
            },
            _ => Err(Error::Str("`Value` could not be converted to `AuthToken`")),
        }
    }
}

/// Whether a request may call a destination, given the token found under
/// the digest of its bearer token (if any), whether that token is linked to
/// the destination, and the instant `now`.
pub open spec fn spec_access(token: Option<AuthToken>, linked: bool, now: Timestamp) -> bool {
    match token {
        Some(t) => linked && t.spec_is_valid_at(now),
        None => false,
    }
}

/// Admits a request to a protected destination: a token was found under the
/// digest of the request's bearer token, it is linked to the destination and
/// it is still valid at `now`; otherwise the request is unauthorized.
pub fn access_decision(token: Option<&AuthToken>, linked: bool, now: &Timestamp) -> (res: Result<(), ApiError>)
    ensures
        res is Ok <==> spec_access(opt_token(token), linked, *now),
        res matches Err(e) ==> e is Unauthorized,
{
    match token {
        Some(t) => if linked && t.is_valid_at(now) {
            Ok(())
        } else {
            Err(ApiError::Unauthorized(()))
        },
        None => Err(ApiError::Unauthorized(())),
    }
}

/// The token behind an optional reference.
pub open spec fn opt_token(o: Option<&AuthToken>) -> Option<AuthToken> {
    match o {
        Some(t) => Some(*t),
        None => None,
    }
}

/// Admits a request to a protected destination by the system clock (see
/// `access_decision`).
pub fn check_access(token: Option<&AuthToken>, linked: bool) -> (res: Result<(), ApiError>)
    ensures
        token is None || !linked ==> (res matches Err(e) && e is Unauthorized),
        token matches Some(t) && linked && t.expiration is None ==> res is Ok,
        exists|now: Timestamp| (res is Ok <==> spec_access(opt_token(token), linked, now)),
        res matches Err(e) ==> e is Unauthorized,
{
    let now = utc_now();
    access_decision(token, linked, &now)
}

/// A token that grants access at some instant grants it at every earlier one.
pub proof fn lemma_valid_at_earlier(token: AuthToken, earlier: Timestamp, later: Timestamp)
    requires
        !earlier.spec_is_after(later),
        token.spec_is_valid_at(later),
    ensures
        token.spec_is_valid_at(earlier),
{
}

} // verus!
