//! The error taxonomy, and its mapping to a status code and envelope.
//!
//! One kind per user-visible outcome: bad credentials (empty field, email
//! not found, or password mismatch — deliberately indistinguishable), a
//! duplicate account, a missing record, a missing or invalid token, and a
//! generic persistence failure.
use vstd::prelude::*;
use crate::response::GenericResponse;

verus! {

#[derive(Debug)]
pub enum MyError {
    /// Unique-constraint violation on email at insert time.
    MongoDuplicateError(),
    /// Any other store-level failure.
    MongoQueryError(),
    /// A path parameter that cannot name a record.
    InvalidIDError(String),
    /// Empty required field, unknown email, or password mismatch.
    InvalidIdentifiants(),
    /// Lookup by identifier returned nothing.
    NotFoundError(String),
    /// Missing, malformed, unverifiable, expired or unparsable token.
    JwtNotFoundError(String),
}

pub ghost enum ErrView {
    MongoDuplicateError,
    MongoQueryError,
    InvalidIDError(Seq<char>),
    InvalidIdentifiants,
    NotFoundError(Seq<char>),
    JwtNotFoundError(Seq<char>),
}

impl View for MyError {
    type V = ErrView;

    open spec fn view(&self) -> ErrView {
        match self {
            MyError::MongoDuplicateError() => ErrView::MongoDuplicateError,
            MyError::MongoQueryError() => ErrView::MongoQueryError,
            MyError::InvalidIDError(id) => ErrView::InvalidIDError(id@),
            MyError::InvalidIdentifiants() => ErrView::InvalidIdentifiants,
            MyError::NotFoundError(id) => ErrView::NotFoundError(id@),
            MyError::JwtNotFoundError(id) => ErrView::JwtNotFoundError(id@),
        }
    }
}

/// The status code and user-visible envelope for an error.
pub open spec fn spec_response_parts(e: ErrView) -> (u16, Seq<char>, Seq<char>) {
    match e {
        ErrView::MongoDuplicateError => (
            409,
            "fail"@,
            "Note with that title already exists"@,
        ),
        ErrView::MongoQueryError => (500, "error"@, "MongoDB error"@),
        ErrView::InvalidIDError(id) => (400, "fail"@, "invalid ID: "@ + id),
        ErrView::InvalidIdentifiants => (401, "fail"@, "Bad Identifiants"@),
        ErrView::NotFoundError(id) => (404, "fail"@, "User with ID: "@ + id + " not found"@),
        ErrView::JwtNotFoundError(id) => (401, "fail"@, "Jwt not found: "@ + id),
    }
}

impl MyError {
    /// The boundary rendering of this error: an HTTP status code and the
    /// generic `{status, message}` envelope, one fixed message per kind
    /// so that no sub-case of a collapsed kind can be told apart.
    pub fn response_parts(&self) -> (r: (u16, GenericResponse))
        ensures
            ({
                let (code, status, message) = spec_response_parts(self@);
                r.0 == code && r.1.status@ == status && r.1.message@ == message
            }),
    {
        match self {
            MyError::MongoDuplicateError() => (
                409,
                GenericResponse {
                    status: ("fail").to_owned(),
                    message: ("Note with that title already exists").to_owned(),
                },
            ),
            MyError::MongoQueryError() => (
                500,
                GenericResponse {
                    status: ("error").to_owned(),
                    message: ("MongoDB error").to_owned(),
                },
            ),
            MyError::InvalidIDError(id) => {
                let mut m: String = ("invalid ID: ").to_owned();
                m.append(id.as_str());
                (400, GenericResponse { status: ("fail").to_owned(), message: m })
            },
            MyError::InvalidIdentifiants() => (
                401,
                GenericResponse {
                    status: ("fail").to_owned(),
                    message: ("Bad Identifiants").to_owned(),
                },
            ),
            MyError::NotFoundError(id) => {
                let mut m: String = ("User with ID: ").to_owned();
                m.append(id.as_str());
                m.append(" not found");
                (404, GenericResponse { status: ("fail").to_owned(), message: m })
            },
            MyError::JwtNotFoundError(id) => {
                let mut m: String = ("Jwt not found: ").to_owned();
                m.append(id.as_str());
                (401, GenericResponse { status: ("fail").to_owned(), message: m })
            },
        }
    }
}

} // verus!
