use vstd::prelude::*;

verus! {

/// Errors reported by the binding.
#[derive(Clone, Copy, Debug, PartialEq, Eq, Structural)]
pub enum Error {
    /// A caller-supplied string cannot be passed as a null-terminated string.
    InvalidData,
    /// The native library returned this negative status code.
    Native(i32),
}

/// The native status code that an error carries, if any.
pub open spec fn code_of(e: Error) -> Option<i32> {
    match e {
        Error::InvalidData => None,
        Error::Native(c) => Some(c),
    }
}

impl Error {
    /// The native status code behind this error, for diagnostics.
    pub fn native_code(&self) -> (r: Option<i32>)
        ensures
            r == code_of(*self),
    {
        match *self {
            Error::InvalidData => None,
            Error::Native(c) => Some(c),
        }
    }
}

impl From<i32> for Error {
    /// The error for a native status code.
    fn from(code: i32) -> (r: Error) {
        Error::Native(code)
    }
}

impl vstd::std_specs::convert::FromSpecImpl<i32> for Error {
    open spec fn obeys_from_spec() -> bool {
        true
    }

    open spec fn from_spec(code: i32) -> Error {
        Error::Native(code)
    }
}

} // verus!
