use vstd::prelude::*;
use crate::text::owned;
use crate::text::extend_str;
use crate::text::from_chars;
use crate::text::to_chars;

verus! {

/// The kind of an IO error: a missing file or entry, or any other failure.
#[derive(Debug, Clone, Copy, PartialEq, Eq)]
pub enum IoKind {
    NotFound,
    Other,
}

/// The errors of the launcher; each carries its message text, and an IO error its kind too.
#[derive(Debug, Clone, PartialEq, Eq)]
pub enum TempestError {
    ConfigError(String),
    NetworkError(String),
    WineError(String),
    AuthError(String),
    IoError(IoKind, String),
    Other(String),
}

/// The prefix that the message of each error starts with.
pub open spec fn error_prefix(e: TempestError) -> Seq<char> {
    match e {
        TempestError::ConfigError(_) => "Config error: "@,
        TempestError::NetworkError(_) => "Network error: "@,
        TempestError::WineError(_) => "Wine error: "@,
        TempestError::AuthError(_) => "Auth error: "@,
        TempestError::IoError(_, _) => "IO error: "@,
        TempestError::Other(_) => ""@,
    }
}

/// The text that an error carries.
pub open spec fn error_detail(e: TempestError) -> Seq<char> {
    match e {
        TempestError::ConfigError(s) => s@,
        TempestError::NetworkError(s) => s@,
        TempestError::WineError(s) => s@,
        TempestError::AuthError(s) => s@,
        TempestError::IoError(_, s) => s@,
        TempestError::Other(s) => s@,
    }
}

impl TempestError {
    /// The message shown for the error: its kind's prefix, then the text it carries.
    pub fn message(&self) -> (res: String)
        ensures
            res@ == error_prefix(*self) + error_detail(*self),
    {
        let mut v: Vec<char> = Vec::new();
        match self {
            TempestError::ConfigError(s) => {
                extend_str(&mut v, "Config error: ");
                extend_str(&mut v, s.as_str());
            },
            TempestError::NetworkError(s) => {
                extend_str(&mut v, "Network error: ");
                extend_str(&mut v, s.as_str());
            },
            TempestError::WineError(s) => {
                extend_str(&mut v, "Wine error: ");
                extend_str(&mut v, s.as_str());
            },
            TempestError::AuthError(s) => {
                extend_str(&mut v, "Auth error: ");
                extend_str(&mut v, s.as_str());
            },
            TempestError::IoError(_, s) => {
                extend_str(&mut v, "IO error: ");
                extend_str(&mut v, s.as_str());
            },
            TempestError::Other(s) => {
                let e = to_chars("");
                assert(e@ == ""@);
                v = e;
                extend_str(&mut v, s.as_str());
            },
        }
        from_chars(&v)
    }
}

/// An error of kind `Other` with the given text.
pub fn other(msg: &str) -> (res: TempestError)
    ensures
        res matches TempestError::Other(m) && m@ == msg@,
{
    TempestError::Other(owned(msg))
}

} // verus!
