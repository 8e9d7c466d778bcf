//! The errors of the library and how each is answered.

use vstd::prelude::*;

verus! {

broadcast use vstd::string::group_string_axioms;

/// A database error, as the ORM reports it.
#[verifier::external_type_specification]
#[verifier::external_body]
pub struct ExDbErr(sea_orm::DbErr);

/// A JSON encoding or decoding error.
#[verifier::external_type_specification]
#[verifier::external_body]
pub struct ExJsonError(serde_json::Error);

/// An error of the service.
#[derive(Debug)]
pub enum AppError {
    NotFound(String),
    BadRequest(String),
    Internal(String),
    Database(sea_orm::DbErr),
}

/// The HTTP status with which each kind of error is answered.
pub open spec fn status_of(e: AppError) -> u16 {
    match e {
        AppError::NotFound(_) => 404,
        AppError::BadRequest(_) => 400,
        AppError::Internal(_) => 500,
        AppError::Database(_) => 500,
    }
}

/// The message of the answer's `error` field: the error's own message, except
/// that a database error is never shown to the caller.
pub open spec fn response_message_of(e: AppError) -> Seq<char> {
    match e {
        AppError::NotFound(m) => m@,
        AppError::BadRequest(m) => m@,
        AppError::Internal(m) => m@,
        AppError::Database(_) => "Internal database error"@,
    }
}

/// `text` is the text of `e`: its kind, a colon and its message; for a
/// database error, the database error's own text.
pub open spec fn describes(e: AppError, text: Seq<char>) -> bool {
    match e {
        AppError::NotFound(m) => text == "not found: "@ + m@,
        AppError::BadRequest(m) => text == "bad request: "@ + m@,
        AppError::Internal(m) => text == "internal: "@ + m@,
        AppError::Database(d) => exists|t: String|
            #[trigger] vstd::string::to_string_from_display_ensures(&d, t)
                && text == "database: "@ + t@,
    }
}

impl AppError {
    /// The HTTP status code of the answer to this error.
    pub fn status_code(&self) -> (r: u16)
        ensures
            r == status_of(*self),
    {
        match self {
            AppError::NotFound(_) => 404,
            AppError::BadRequest(_) => 400,
            AppError::Internal(_) => 500,
            AppError::Database(_) => 500,
        }
    }

    /// The message that the answer to this error carries.
    pub fn response_message(&self) -> (r: String)
        ensures
            r@ == response_message_of(*self),
    {
        match self {
            AppError::NotFound(m) => m.clone(),
            AppError::BadRequest(m) => m.clone(),
            AppError::Internal(m) => m.clone(),
            AppError::Database(_) => String::from_str("Internal database error"),
        }
    }

    /// The text of this error: its kind, a colon and its message. For a
    /// database error the message is the database error's own text.
    pub fn describe(&self) -> (r: String)
        ensures
            describes(*self, r@),
    {
        match self {
            AppError::NotFound(m) => String::from_str("not found: ").concat(m.as_str()),
            AppError::BadRequest(m) => String::from_str("bad request: ").concat(m.as_str()),
            AppError::Internal(m) => String::from_str("internal: ").concat(m.as_str()),
            AppError::Database(e) => {
                let t = e.to_string();
                String::from_str("database: ").concat(t.as_str())
            },
        }
    }

    /// The error that a JSON failure becomes: an internal error whose message
    /// is `JSON error: ` followed by the JSON error's text.
    pub fn from_json_error(err: &serde_json::Error) -> (r: AppError)
        ensures
            r matches AppError::Internal(m) && exists|t: String|
                #[trigger] vstd::string::to_string_from_display_ensures(err, t)
                    && m@ == "JSON error: "@ + t@,
    {
        let t = err.to_string();
        AppError::Internal(String::from_str("JSON error: ").concat(t.as_str()))
    }
}

impl From<sea_orm::DbErr> for AppError {
    fn from(err: sea_orm::DbErr) -> (r: AppError) {
        AppError::Database(err)
    }
}

impl vstd::std_specs::convert::FromSpecImpl<sea_orm::DbErr> for AppError {
    open spec fn obeys_from_spec() -> bool {
        true
    }

    open spec fn from_spec(err: sea_orm::DbErr) -> AppError {
        AppError::Database(err)
    }
}

} // verus!
