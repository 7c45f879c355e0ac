use vstd::prelude::*;

verus! {

/// The engine's status code for malformed or incompatible data.
pub const INVALID_DATA_CODE: i32 = -1094995529;

/// The engine's status code for an invalid argument.
pub const INVALID_ARGUMENT_CODE: i32 = -22;

/// Errors surfaced by descriptors, graphs and graph parsers.
#[derive(Clone, Copy, Debug, PartialEq, Eq, Structural)]
pub enum Error {
    /// An operation met a descriptor or node in an incompatible state.
    InvalidData,
    /// Any other failure code reported by the engine.
    Backend(i32),
}

/// The error that a negative engine status code stands for.
pub open spec fn error_of(code: i32) -> Error {
    if code == INVALID_DATA_CODE {
        Error::InvalidData
    } else {
        Error::Backend(code)
    }
}

/// The engine status code of an error.
pub open spec fn code_of(e: Error) -> i32 {
    match e {
        Error::InvalidData => INVALID_DATA_CODE,
        Error::Backend(code) => code,
    }
}

/// The outcome of an engine call that reports success with any non-negative code.
pub open spec fn outcome_of(code: i32) -> Result<(), Error> {
    if code >= 0 {
        Ok(())
    } else {
        Err(error_of(code))
    }
}

impl Error {
    /// Translates an engine status code into this library's error.
    pub fn from_code(code: i32) -> (e: Error)
        ensures
            e == error_of(code),
    {
        if code == INVALID_DATA_CODE {
            Error::InvalidData
        } else {
            Error::Backend(code)
        }
    }

    /// The engine status code this error stands for.
    pub fn code(&self) -> (c: i32)
        ensures
            c == code_of(*self),
    {
        match self {
            Error::InvalidData => INVALID_DATA_CODE,
            Error::Backend(code) => *code,
        }
    }
}

/// Maps the status of an engine call that succeeds with any non-negative code.
pub fn outcome(code: i32) -> (r: Result<(), Error>)
    ensures
        r == outcome_of(code),
{
    if code >= 0 {
        Ok(())
    } else {
        Err(Error::from_code(code))
    }
}

/// Translating a code into an error and back gives the code again.
pub proof fn lemma_code_round_trip(code: i32)
    ensures
        code_of(error_of(code)) == code,
{
}

} // verus!
