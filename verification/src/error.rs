use vstd::prelude::*;

verus! {

/// Why a cursor position could not be read.
#[derive(Debug)]
pub enum Error {
    /// Failed to connect to the display (e.g. missing DISPLAY, XWayland down).
    Connection(String),
    /// Server query failed.
    Query(String),
    /// Platform without implementation.
    Unsupported(String),
}

/// The text that describes an error, as a user reads it.
pub open spec fn error_text(e: Error) -> Seq<char> {
    match e {
        Error::Connection(m) => "display connection failed: "@ + m@,
        Error::Query(m) => "position query failed: "@ + m@,
        Error::Unsupported(m) => "unsupported: "@ + m@,
    }
}

impl Error {
    /// The human-readable description of the error.
    pub fn message(&self) -> (res: String)
        ensures
            res@ == error_text(*self),
    {
        match self {
            Error::Connection(m) => String::from_str("display connection failed: ").concat(m.as_str()),
            Error::Query(m) => String::from_str("position query failed: ").concat(m.as_str()),
            Error::Unsupported(m) => String::from_str("unsupported: ").concat(m.as_str()),
        }
    }
}


/// The text of an error ends with its detail message, and errors of
/// different kinds read differently even with the same detail.
pub proof fn law_error_text(m: String)
    ensures
        ({
            let t = error_text(Error::Query(m));
            t.subrange(t.len() - m@.len(), t.len() as int) == m@
        }),
        ({
            let t = error_text(Error::Connection(m));
            t.subrange(t.len() - m@.len(), t.len() as int) == m@
        }),
        ({
            let t = error_text(Error::Unsupported(m));
            t.subrange(t.len() - m@.len(), t.len() as int) == m@
        }),
        error_text(Error::Query(m)) != error_text(Error::Connection(m)),
        error_text(Error::Query(m)) != error_text(Error::Unsupported(m)),
        error_text(Error::Connection(m)) != error_text(Error::Unsupported(m)),
{
    reveal_strlit("display connection failed: ");
    reveal_strlit("position query failed: ");
    reveal_strlit("unsupported: ");
    assert(error_text(Error::Query(m))[0] == 'p');
    assert(error_text(Error::Connection(m))[0] == 'd');
    assert(error_text(Error::Unsupported(m))[0] == 'u');
}

} // verus!
