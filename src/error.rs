use vstd::prelude::*;

verus! {

/// HTTP status code for a lookup that found nothing.
pub const NOT_FOUND: u16 = 404;

/// HTTP status code for a fault in the server's own data.
pub const INTERNAL_SERVER_ERROR: u16 = 500;

/// An error with the HTTP status code it should be reported with.
#[derive(Debug)]
pub struct AppError {
    pub message: String,
    pub code: u16,
}

impl AppError {
    pub fn new(code: u16, message: &str) -> (r: AppError)
        ensures
            r.code == code,
            r.message@ == message@,
    {
        AppError { code, message: message.to_owned() }
    }
}

} // verus!
