//! Errors that the library reports from a computation.
use vstd::prelude::*;

verus! {

/// The kind of a reported error, by its numeric code.
#[derive(Clone, Copy, Debug, PartialEq, Eq, Structural, Hash)]
pub enum QhErrorKind {
    /// An error code that has no kind of its own.
    Other(i32),
}

/// The numeric code of an error kind.
pub open spec fn code_of(kind: QhErrorKind) -> i32 {
    match kind {
        QhErrorKind::Other(code) => code,
    }
}

impl QhErrorKind {
    /// The kind of a non-zero error code; 0 means success and is no error.
    pub fn from_code(code: i32) -> (r: Self)
        requires
            code != 0,
        ensures
            r == QhErrorKind::Other(code),
            code_of(r) == code,
    {
        QhErrorKind::Other(code)
    }

    /// The numeric code of the kind.
    pub fn error_code(&self) -> (r: i32)
        ensures
            r == code_of(*self),
    {
        match self {
            QhErrorKind::Other(code) => *code,
        }
    }
}

/// An error reported by a fallible call: its kind and the diagnostic text
/// that the call wrote, where that text was captured.
#[derive(Clone, Debug)]
pub struct QhError {
    pub kind: QhErrorKind,
    pub error_message: Option<String>,
}

impl QhError {
    /// Settles a fallible call from what it left behind: the status code it
    /// reported, the value it returned if it ran to its end, and the
    /// diagnostic text captured meanwhile. Status 0 gives the value; any
    /// other status gives an error with that code and the text.
    pub fn try_outcome<R>(err_code: i32, result: Option<R>, error_message: Option<String>) -> (r:
        Result<R, QhError>)
        requires
            err_code == 0 ==> result is Some,
        ensures
            err_code == 0 ==> (r matches Ok(v) && v == result->0),
            err_code != 0 ==> (r matches Err(e) && e.kind == QhErrorKind::Other(err_code)
                && e.error_message == error_message),
    {
        if err_code == 0 {
            Ok(result.unwrap())
        } else {
            Err(QhError { kind: QhErrorKind::from_code(err_code), error_message })
        }
    }

    /// The kind of the error.
    pub fn kind(&self) -> (r: QhErrorKind)
        ensures
            r == self.kind,
    {
        self.kind
    }

    /// The captured diagnostic text, if any.
    pub fn error_message(&self) -> (r: Option<&String>)
        ensures
            r matches Some(m) ==> self.error_message == Some(*m),
            r is None <==> self.error_message is None,
    {
        self.error_message.as_ref()
    }
}

} // verus!
