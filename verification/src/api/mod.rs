//! Decisions of the HTTP layer: who may call a destination, what becomes of
//! each source's reply, and what is answered.
use vstd::prelude::*;
use serde_json::Value as JsonValue;
use crate::config::yaml_parser::opt_view;
use crate::text::{trim, trim_str};
use crate::utils::hasher::{sha256_digest, Hasher};
use vstd::utf8::encode_utf8;

pub mod bindings;
pub mod error;
pub mod response;

pub use self::bindings::Bindings;
pub use self::error::Error;
pub use self::response::Response;

verus! {

/// Whether `regex::Regex::new` accepts `pattern`.
pub uninterp spec fn regex_compiles(pattern: Seq<char>) -> bool;

/// The text of the leftmost-first match of `pattern` in `text`
/// (`regex::Regex::find`), if there is one.
pub uninterp spec fn regex_first_match(pattern: Seq<char>, text: Seq<char>) -> Option<Seq<char>>;

/// `regex::Regex::new(pattern)` and then `find(text)`: the text of the first
/// match. Compiling succeeds as named by `regex_compiles`, and the match is
/// named by `regex_first_match`; on a refused pattern the error's text is
/// returned, and nothing is stated of that text.
#[verifier::external_body]
pub(crate) fn regex_find(pattern: &str, text: &str) -> (res: Result<Option<String>, String>)
    ensures
        res is Ok <==> regex_compiles(pattern@),
        res matches Ok(m) ==> opt_view(m) == regex_first_match(pattern@, text@),
{
    match regex::Regex::new(pattern) {
        Ok(re) => Ok(re.find(text).map(|m| m.as_str().to_string())),
        Err(e) => Err(e.to_string()),
    }
}

/// The pattern that an `Authorization` header must match.
pub open spec fn bearer_pattern() -> Seq<char> {
    "^Bearer\\s\\w{32}$"@
}

/// The part of `s` after its last space (all of `s` when it has none).
pub open spec fn after_last_space(s: Seq<char>) -> Seq<char>
    decreases s.len(),
{
    if s.len() == 0 {
        s
    } else if s.last() == ' ' {
        Seq::empty()
    } else {
        after_last_space(s.drop_last()).push(s.last())
    }
}

proof fn lemma_after_last_space(s: Seq<char>, k: int)
    requires
        0 <= k <= s.len(),
        k == 0 || s[k - 1] == ' ',
        forall|j: int| k <= j < s.len() ==> #[trigger] s[j] != ' ',
    ensures
        after_last_space(s) == s.subrange(k, s.len() as int),
    decreases s.len(),
{
    if s.len() > k {
        assert forall|j: int| k <= j < s.drop_last().len() implies #[trigger] s.drop_last()[j] != ' ' by {
            assert(s.drop_last()[j] == s[j]);
        }
        lemma_after_last_space(s.drop_last(), k);
        assert(s.subrange(k, s.len() as int) =~= s.drop_last().subrange(k, s.len() - 1).push(s.last()));
    } else if k > 0 {
        assert(s.last() == ' ');
    }
}

/// The token taken from a header holds no space.
pub proof fn lemma_token_has_no_space(s: Seq<char>)
    ensures
        forall|i: int| 0 <= i < after_last_space(s).len() ==> #[trigger] after_last_space(s)[i] != ' ',
    decreases s.len(),
{
    if s.len() > 0 && s.last() != ' ' {
        lemma_token_has_no_space(s.drop_last());
        let t = after_last_space(s.drop_last());
        assert forall|i: int| 0 <= i < t.push(s.last()).len() implies #[trigger] t.push(s.last())[i] != ' ' by {
            if i < t.len() {
                assert(t.push(s.last())[i] == t[i]);
            }
        }
    }
}

/// The token of an `Authorization` header, given the header's match of
/// `bearer_pattern`: no match means the caller is unauthorized; else the
/// token is the part of the match after its last space.
pub fn token_from_match(found: Option<&str>) -> (res: Result<String, Error>)
    ensures
        match found {
            None => res matches Err(e) && e is Unauthorized,
            Some(m) => res matches Ok(t) && t@ == after_last_space(m@),
        },
{
    let m = match found {
        None => return Err(Error::Unauthorized(())),
        Some(m) => m,
    };
    let n = m.unicode_len();
    let mut k: usize = n;
    while k > 0 && m.get_char(k - 1) != ' '
        invariant
            n == m@.len(),
            0 <= k <= n,
            forall|j: int| k <= j < n ==> #[trigger] m@[j] != ' ',
        decreases k,
    {
        k = k - 1;
    }
    proof {
        lemma_after_last_space(m@, k as int);
    }
    Ok(String::from_str(m.substring_char(k, n)))
}

/// The bearer token of a request, from its `Authorization` header (absent:
/// `None`): the header must match `bearer_pattern`, and the token is the
/// part after the last space. A refused pattern is an internal error.
pub fn bearer_token(header: Option<&str>) -> (res: Result<String, Error>)
    ensures
        !regex_compiles(bearer_pattern()) ==> (res matches Err(e) && e is InternalServerError),
        regex_compiles(bearer_pattern()) ==> match header {
            None => res matches Err(e) && e is Unauthorized,
            Some(h) => match regex_first_match(bearer_pattern(), h@) {
                None => res matches Err(e) && e is Unauthorized,
                Some(m) => res matches Ok(t) && t@ == after_last_space(m),
            },
        },
{
    let text = match header {
        Some(h) => h,
        None => "",
    };
    match regex_find("^Bearer\\s\\w{32}$", text) {
        Err(message) => Err(Error::InternalServerError(message)),
        Ok(found) => {
            if header.is_none() {
                return Err(Error::Unauthorized(()));
            }
            match &found {
                Some(m) => token_from_match(Some(m.as_str())),
                None => token_from_match(None),
            }
        },
    }
}

/// What became of the request to one source.
pub enum SourceReply {
    /// No response came back; `timed_out` tells a timeout from other failures.
    SendFailed { timed_out: bool, message: String },
    /// Status 200; the body read as JSON, or the failure to read it.
    Success(Result<JsonValue, String>),
    /// Any other status, as the HTTP crate displays it (e.g. `404 Not Found`).
    Status(String),
}

/// The message for a source that timed out.
pub open spec fn timeout_message(url: Seq<char>) -> Seq<char> {
    "Request timeout for source: ("@ + url + ")"@
}

/// The message for a source that answered with a status other than 200.
pub open spec fn bad_status_message(url: Seq<char>, status: Seq<char>) -> Seq<char> {
    "Recieved bad response from source: ("@ + url + ")\nError code "@ + status
}

/// The JSON document that a source contributes to the aggregate, or the
/// error that ends the request: a failed send or a bad status yields the
/// fallback when there is one; else a timeout is a bad request and any
/// other failure an internal error.
pub fn resolve_source_reply(url: &str, fallback: Option<JsonValue>, reply: SourceReply) -> (res: Result<JsonValue, Error>)
    ensures
        match reply {
            SourceReply::SendFailed { timed_out, message } => match fallback {
                Some(f) => res == Ok::<JsonValue, Error>(f),
                None => if timed_out {
                    res matches Err(Error::BadRequest(m)) && m@ == timeout_message(url@)
                } else {
                    res matches Err(Error::InternalServerError(m)) && m == message
                },
            },
            SourceReply::Success(Ok(v)) => res == Ok::<JsonValue, Error>(v),
            SourceReply::Success(Err(m)) => res matches Err(Error::InternalServerError(e)) && e == m,
            SourceReply::Status(s) => match fallback {
                Some(f) => res == Ok::<JsonValue, Error>(f),
                None => res matches Err(Error::InternalServerError(m)) && m@ == bad_status_message(url@, s@),
            },
        },
{
    match reply {
        SourceReply::SendFailed { timed_out, message } => match fallback {
            Some(f) => Ok(f),
            None => if timed_out {
                let mut m = String::from_str("Request timeout for source: (");
                m.append(url);
                m.append(")");
                Err(Error::BadRequest(m))
            } else {
                Err(Error::InternalServerError(message))
            },
        },
        SourceReply::Success(Ok(v)) => Ok(v),
        SourceReply::Success(Err(m)) => Err(Error::InternalServerError(m)),
        SourceReply::Status(s) => match fallback {
            Some(f) => Ok(f),
            None => {
                let mut m = String::from_str("Recieved bad response from source: (");
                m.append(url);
                m.append(")\nError code ");
                m.append(s.as_str());
                Err(Error::InternalServerError(m))
            },
        },
    }
}

/// The aggregate of the sources' outcomes, taken in the order of the
/// sources: every document, in that order, when all succeeded; else the
/// error of the first source that failed.
pub fn collect_replies(replies: Vec<Result<JsonValue, Error>>) -> (res: Result<Vec<JsonValue>, Error>)
    ensures
        match res {
            Ok(docs) => docs@.len() == replies@.len() && forall|j: int|
                0 <= j < replies@.len() ==> #[trigger] replies@[j] == Ok::<JsonValue, Error>(docs@[j]),
            Err(e) => exists|k: int|
                0 <= k < replies@.len() && #[trigger] replies@[k] == Err::<JsonValue, Error>(e)
                    && forall|j: int| 0 <= j < k ==> #[trigger] replies@[j] is Ok,
        },
{
    let ghost all = replies@;
    let mut rest = replies;
    let mut docs: Vec<JsonValue> = Vec::new();
    let ghost mut i: int = 0;
    while rest.len() > 0
        invariant
            all == replies@,
            0 <= i <= all.len(),
            rest@ == all.subrange(i, all.len() as int),
            docs@.len() == i,
            forall|j: int| 0 <= j < i ==> #[trigger] all[j] == Ok::<JsonValue, Error>(docs@[j]),
        decreases rest@.len(),
    {
        let r = rest.remove(0);
        match r {
            Err(e) => {
                assert(all[i] == Err::<JsonValue, Error>(e));
                return Err(e);
            },
            Ok(d) => {
                docs.push(d);
                proof {
                    i = i + 1;
                }
            },
        }
    }
    Ok(docs)
}

/// The key under which a request's token is looked up: the SHA-256 digest
/// of the UTF-8 bytes of its bearer token (see `bearer_token`, whose
/// refusals it keeps).
pub fn lookup_key(header: Option<&str>) -> (res: Result<Vec<u8>, Error>)
    ensures
        !regex_compiles(bearer_pattern()) ==> (res matches Err(e) && e is InternalServerError),
        regex_compiles(bearer_pattern()) ==> match header {
            None => res matches Err(e) && e is Unauthorized,
            Some(h) => match regex_first_match(bearer_pattern(), h@) {
                None => res matches Err(e) && e is Unauthorized,
                Some(m) => res matches Ok(k) && k@ == sha256_digest(encode_utf8(after_last_space(m))),
            },
        },
{
    match bearer_token(header) {
        Ok(t) => Ok(Hasher::hash_string(t)),
        Err(e) => Err(e),
    }
}

/// The destination path of a request whose path below the API root is `tail`.
pub fn request_path(tail: &str) -> (res: String)
    ensures
        res@ == seq!['/'] + tail@,
{
    let mut p = String::from_str("/");
    p.append(tail);
    proof {
        reveal_strlit("/");
    }
    p
}

/// The answer to a destination: the output of its filter, trimmed, when it
/// has one; else the aggregated sources as they are.
pub fn destination_response(filter_output: Option<&str>, sources: String) -> (res: Response)
    ensures
        match filter_output {
            Some(out) => res matches Response::JsonString(j) && j@ == trim(out@),
            None => res == Response::JsonString(sources),
        },
{
    match filter_output {
        Some(out) => Response::JsonString(trim_str(out)),
        None => Response::JsonString(sources),
    }
}

} // verus!
