//! The error that the application's handlers report.

use vstd::prelude::*;

verus! {

/// The page that a failed request is redirected to.
pub const ERROR_PAGE: &'static str = "/error";

/// HTTP status 302 Found, with which a failed request is redirected.
pub const FOUND: u16 = 302;

/// An application error: the message that explains it.
pub struct AppError(pub String);

impl AppError {
    /// An error with the given message.
    pub fn new(message: &str) -> (e: AppError)
        ensures
            e.0@ == message@,
    {
        AppError(message.to_string())
    }

    /// The status with which a failed request is answered: a redirect.
    pub fn status_code(&self) -> (code: u16)
        ensures
            code == FOUND,
    {
        FOUND
    }

    /// Where a failed request is redirected: the error page.
    pub fn redirect_location(&self) -> (loc: &'static str)
        ensures
            loc == ERROR_PAGE,
    {
        ERROR_PAGE
    }
}

} // verus!
