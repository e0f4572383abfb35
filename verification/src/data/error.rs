//! Errors of the data layer.
use vstd::prelude::*;

verus! {

/// What the library keeps of a failed database call: whether the query found
/// no row where it expected one, and the database driver's own message.
pub struct DatabaseError {
    pub row_not_found: bool,
    pub message: String,
}

/// Errors of the data layer.
pub enum Error {
    /// A missing or unreadable environment variable, with the reason.
    Env(String),
    Database(DatabaseError),
    Connection(String),
    Str(&'static str),
}

/// `pre` + `body` + "`".
pub open spec fn quoted(pre: Seq<char>, body: Seq<char>) -> Seq<char> {
    pre + body + seq!['`']
}

impl Error {
    /// The text of the error, as its `Display` implementation writes it.
    pub open spec fn spec_message(&self) -> Seq<char> {
        match self {
            Error::Env(m) => quoted("ENV ERROR: `"@, m@),
            Error::Database(d) => quoted("DATABASE ERROR: `"@, d.message@),
            Error::Connection(m) => quoted("DATABASE CONNECTION ERROR: `"@, m@),
            Error::Str(m) => quoted("DATA ERROR: `"@, m@),
        }
    }

    /// The text of the error, as its `Display` implementation writes it.
    pub fn message(&self) -> (res: String)
        ensures
            res@ == self.spec_message(),
    {
        let (pre, body): (&str, &str) = match self {
            Error::Env(m) => ("ENV ERROR: `", m.as_str()),
            Error::Database(d) => ("DATABASE ERROR: `", d.message.as_str()),
            Error::Connection(m) => ("DATABASE CONNECTION ERROR: `", m.as_str()),
            Error::Str(m) => ("DATA ERROR: `", *m),
        };
        let mut out = String::from_str(pre);
        out.append(body);
        out.append("`");
        proof {
            reveal_strlit("ENV ERROR: `");
            reveal_strlit("DATABASE ERROR: `");
            reveal_strlit("DATABASE CONNECTION ERROR: `");
            reveal_strlit("DATA ERROR: `");
            reveal_strlit("`");
        }
        out
    }
}

} // verus!
