//! The error taxonomy of the access layer, and the translation of the
//! engine's numeric status codes into it.

use vstd::prelude::*;

verus! {

/// Status code the engine reports for a successful call.
pub const FDB_NO_ERR: u32 = 0;

/// Status code for a failed erase operation.
pub const FDB_ERASE_ERR: u32 = 1;

/// Status code for a failed read operation.
pub const FDB_READ_ERR: u32 = 2;

/// Status code for a failed write operation.
pub const FDB_WRITE_ERR: u32 = 3;

/// Status code for a missing partition.
pub const FDB_PART_NOT_FOUND: u32 = 4;

/// Status code for a malformed key name.
pub const FDB_KV_NAME_ERR: u32 = 5;

/// Status code for a key name that already exists.
pub const FDB_KV_NAME_EXIST: u32 = 6;

/// Status code for exhausted storage.
pub const FDB_SAVED_FULL: u32 = 7;

/// Status code for a failed initialization.
pub const FDB_INIT_FAILED: u32 = 8;

/// The errors this layer reports.
///
/// `NoError` stands for the engine's success code when it is carried as a
/// value rather than as the `Ok` arm of a `Result`.
#[derive(Clone, Copy, Debug, PartialEq, Eq, Structural)]
pub enum Error {
    NoError,
    EraseError,
    ReadError,
    WriteError,
    PartNotFound,
    KvNameError,
    KvNameExist,
    SavedFull,
    InitFailed,
    UnknownError,
    InvalidArgument,
    KeyNotFound,
}

/// The error that a given engine status code denotes. Codes outside the
/// engine's published range map to `UnknownError` rather than failing.
pub open spec fn spec_error_of_code(code: u32) -> Error {
    if code == FDB_NO_ERR {
        Error::NoError
    } else if code == FDB_ERASE_ERR {
        Error::EraseError
    } else if code == FDB_READ_ERR {
        Error::ReadError
    } else if code == FDB_WRITE_ERR {
        Error::WriteError
    } else if code == FDB_PART_NOT_FOUND {
        Error::PartNotFound
    } else if code == FDB_KV_NAME_ERR {
        Error::KvNameError
    } else if code == FDB_KV_NAME_EXIST {
        Error::KvNameExist
    } else if code == FDB_SAVED_FULL {
        Error::SavedFull
    } else if code == FDB_INIT_FAILED {
        Error::InitFailed
    } else {
        Error::UnknownError
    }
}

impl Error {
    /// Translates an engine status code into the error it denotes.
    pub fn from_code(code: u32) -> (r: Error)
        ensures
            r == spec_error_of_code(code),
    {
        if code == FDB_NO_ERR {
            Error::NoError
        } else if code == FDB_ERASE_ERR {
            Error::EraseError
        } else if code == FDB_READ_ERR {
            Error::ReadError
        } else if code == FDB_WRITE_ERR {
            Error::WriteError
        } else if code == FDB_PART_NOT_FOUND {
            Error::PartNotFound
        } else if code == FDB_KV_NAME_ERR {
            Error::KvNameError
        } else if code == FDB_KV_NAME_EXIST {
            Error::KvNameExist
        } else if code == FDB_SAVED_FULL {
            Error::SavedFull
        } else if code == FDB_INIT_FAILED {
            Error::InitFailed
        } else {
            Error::UnknownError
        }
    }

    /// Turns an engine status code into a `Result`: the success code becomes
    /// `Ok(())`, every other code becomes the error it denotes.
    pub fn convert(code: u32) -> (r: Result<(), Error>)
        ensures
            code == FDB_NO_ERR <==> r is Ok,
            r matches Err(e) ==> e == spec_error_of_code(code),
    {
        if code == FDB_NO_ERR {
            Ok(())
        } else {
            Err(Error::from_code(code))
        }
    }

    /// Turns an engine status code into a `Result` carrying `value`: the
    /// success code yields `Ok(value)`, every other code the error it denotes.
    pub fn check_and_return<T>(code: u32, value: T) -> (r: Result<T, Error>)
        ensures
            code == FDB_NO_ERR ==> r == Ok::<T, Error>(value),
            code != FDB_NO_ERR ==> r == Err::<T, Error>(spec_error_of_code(code)),
    {
        if code == FDB_NO_ERR {
            Ok(value)
        } else {
            Err(Error::from_code(code))
        }
    }
}

} // verus!
