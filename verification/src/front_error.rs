//! The errors that the site's pages report.
use vstd::prelude::*;

verus! {

/// An error shown on a page.
#[derive(Debug, Clone, Copy, PartialEq, Eq, Structural)]
pub enum Error {
    /// 401
    Unauthorized,
    /// 403
    Forbidden,
    /// 404
    NotFound,
    /// 500
    InternalServerError,
    /// The answer could not be read.
    DeserializeError,
    /// The request could not be sent.
    RequestError,
    PasswordNotMatchError,
    PasswordWeakError,
    LogInError,
}

/// The text shown for each error.
pub open spec fn error_text(e: Error) -> Seq<char> {
    match e {
        Error::Unauthorized => "Unauthorized"@,
        Error::Forbidden => "Forbidden"@,
        Error::NotFound => "Not Found"@,
        Error::InternalServerError => "Internal Server Error"@,
        Error::DeserializeError => "Deserialize Error"@,
        Error::RequestError => "Http Request Error"@,
        Error::PasswordNotMatchError => "Repeated password doesn't match"@,
        Error::PasswordWeakError => "Stupid password"@,
        Error::LogInError => "Login Error"@,
    }
}

impl Error {
    /// The text shown for the error.
    pub fn message(&self) -> (res: String)
        ensures
            res@ == error_text(*self),
    {
        match self {
            Error::Unauthorized => "Unauthorized".to_owned(),
            Error::Forbidden => "Forbidden".to_owned(),
            Error::NotFound => "Not Found".to_owned(),
            Error::InternalServerError => "Internal Server Error".to_owned(),
            Error::DeserializeError => "Deserialize Error".to_owned(),
            Error::RequestError => "Http Request Error".to_owned(),
            Error::PasswordNotMatchError => "Repeated password doesn't match".to_owned(),
            Error::PasswordWeakError => "Stupid password".to_owned(),
            Error::LogInError => "Login Error".to_owned(),
        }
    }
}

} // verus!
