//! The closed set of failures the pipeline reports.
use vstd::prelude::*;
use vstd::string::*;

verus! {

#[derive(Debug, Clone)]
pub enum AppError {
    /// The request itself failed (connection, timeout, body read).
    Http(String),
    /// The input failed validation, or a document could not be decoded.
    ParseError(String),
    /// A non-success status, or a document without a usable item.
    NotFound(String),
    /// The marketplace answered 429.
    RateLimited,
    /// The storage collaborator failed.
    Database(String),
}

pub type AppResult<T> = Result<T, AppError>;

/// The human-readable text of an error.
pub open spec fn error_text(e: AppError) -> Seq<char> {
    match e {
        AppError::Http(m) => "HTTP request failed: "@ + m@,
        AppError::ParseError(_) => "Failed to parse HTML"@,
        AppError::NotFound(m) => "Item not found: "@ + m@,
        AppError::RateLimited => "Rate limited, please try again later"@,
        AppError::Database(m) => "Database error: "@ + m@,
    }
}

impl AppError {
    /// The message shown to the user for this error.
    pub fn message(&self) -> (r: String)
        ensures
            r@ == error_text(*self),
    {
        match self {
            AppError::Http(m) => {
                let mut r = String::from_str("HTTP request failed: ");
                r.append(m.as_str());
                r
            },
            AppError::ParseError(_) => String::from_str("Failed to parse HTML"),
            AppError::NotFound(m) => {
                let mut r = String::from_str("Item not found: ");
                r.append(m.as_str());
                r
            },
            AppError::RateLimited => String::from_str("Rate limited, please try again later"),
            AppError::Database(m) => {
                let mut r = String::from_str("Database error: ");
                r.append(m.as_str());
                r
            },
        }
    }
}

} // verus!
