//! Errors that the API answers with.
use vstd::prelude::*;
use crate::data::Error as DataError;

verus! {

/// Errors that the API answers with.
pub enum Error {
    NotFound(()),
    BadRequest(String),
    Unauthorized(()),
    InternalServerError(String),
}

impl Error {
    /// The HTTP status and body of the answer to this error.
    pub fn into_response_parts(self) -> (res: (u16, String))
        ensures
            match self {
                Error::NotFound(()) => res.0 == 404 && res.1@ == Seq::<char>::empty(),
                Error::BadRequest(m) => res.0 == 400 && res.1 == m,
                Error::Unauthorized(()) => res.0 == 401 && res.1@ == Seq::<char>::empty(),
                Error::InternalServerError(m) => res.0 == 500 && res.1 == m,
            },
    {
        match self {
            Error::NotFound(()) => (404, String::new()),
            Error::BadRequest(err) => (400, err),
            Error::Unauthorized(()) => (401, String::new()),
            Error::InternalServerError(err) => (500, err),
        }
    }

    /// The answer to an error of the data layer: a query that found no row
    /// is `NotFound`; anything else is an internal error with the error's text.
    pub fn from_data(value: DataError) -> (res: Error)
        ensures
            match value {
                DataError::Database(d) => if d.row_not_found {
                    res is NotFound
                } else {
                    res matches Error::InternalServerError(m) && m@ == value.spec_message()
                },
                _ => res matches Error::InternalServerError(m) && m@ == value.spec_message(),
            },
    {
        let row_not_found = match &value {
            DataError::Database(d) => d.row_not_found,
            _ => false,
        };
        if row_not_found {
            Error::NotFound(())
        } else {
            Error::InternalServerError(value.message())
        }
    }
}

} // verus!
