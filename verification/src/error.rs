use libc::c_ulong;
use vstd::prelude::*;

verus! {

/// One entry of OpenSSL's error queue, identified by its packed error code.
#[derive(Debug, Clone, Copy, PartialEq, Eq, Structural)]
pub struct Error {
    code: c_ulong,
}

impl Error {
    /// The packed error code of this entry.
    pub closed spec fn spec_code(self) -> c_ulong {
        self.code
    }

    /// An entry with the given packed error code.
    pub fn from_code(code: c_ulong) -> (e: Error)
        ensures
            e.spec_code() == code,
    {
        Error { code }
    }

    /// The packed error code of this entry.
    pub fn code(&self) -> (c: c_ulong)
        ensures
            c == self.spec_code(),
    {
        self.code
    }
}

/// The errors that OpenSSL reported for a failed call, oldest first.
#[derive(Debug)]
pub struct ErrorStack {
    errors: Vec<Error>,
}

impl View for ErrorStack {
    type V = Seq<Error>;

    closed spec fn view(&self) -> Seq<Error> {
        self.errors@
    }
}

impl ErrorStack {
    /// A stack holding the given errors, oldest first.
    pub fn new(errors: Vec<Error>) -> (s: ErrorStack)
        ensures
            s@ == errors@,
    {
        ErrorStack { errors }
    }

    /// A stack that holds no error: what a failed call that reported nothing leaves.
    pub fn empty() -> (s: ErrorStack)
        ensures
            s@ == Seq::<Error>::empty(),
    {
        ErrorStack { errors: Vec::new() }
    }

    /// The errors of this stack, oldest first.
    pub fn errors(&self) -> (r: &[Error])
        ensures
            r@ == self@,
    {
        self.errors.as_slice()
    }
}

} // verus!
