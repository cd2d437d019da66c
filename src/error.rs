//! The errors that the engine's calls report, by status code.
use vstd::prelude::*;

use crate::constants::{
    HS_BAD_ALIGN, HS_BAD_ALLOC, HS_DB_MODE_ERROR, HS_DB_PLATFORM_ERROR, HS_DB_VERSION_ERROR,
    HS_INVALID, HS_NOMEM, HS_SCAN_TERMINATED, HS_SUCCESS,
};

verus! {

/// An outcome of an engine call.
#[derive(Debug)]
pub enum Error {
    Success,
    Failed(i32),
    Invalid,
    NoMem,
    ScanTerminated,
    CompilerError(String),
    DbVersionError,
    DbPlatformError,
    DbModeError,
    BadAlign,
    BadAlloc,
}

/// The error that a status code stands for; a code without a name of its own
/// is kept in `Failed`.
pub open spec fn error_of_code(code: i32) -> Error {
    if code == HS_SUCCESS {
        Error::Success
    } else if code == HS_INVALID {
        Error::Invalid
    } else if code == HS_NOMEM {
        Error::NoMem
    } else if code == HS_SCAN_TERMINATED {
        Error::ScanTerminated
    } else if code == HS_DB_VERSION_ERROR {
        Error::DbVersionError
    } else if code == HS_DB_PLATFORM_ERROR {
        Error::DbPlatformError
    } else if code == HS_DB_MODE_ERROR {
        Error::DbModeError
    } else if code == HS_BAD_ALIGN {
        Error::BadAlign
    } else if code == HS_BAD_ALLOC {
        Error::BadAlloc
    } else {
        Error::Failed(code)
    }
}

/// The text that describes an error.
pub open spec fn error_text(e: &Error) -> Seq<char> {
    match e {
        Error::Success => "The engine completed normally."@,
        Error::Failed(_) => "Failed."@,
        Error::Invalid => "A parameter passed to this function was invalid."@,
        Error::NoMem => "A memory allocation failed."@,
        Error::ScanTerminated => "The engine was terminated by callback."@,
        Error::CompilerError(_) => "The pattern compiler failed."@,
        Error::DbVersionError => "The given database was built for a different version of Hyperscan."@,
        Error::DbPlatformError => "The given database was built for a different platform."@,
        Error::DbModeError => "The given database was built for a different mode of operation."@,
        Error::BadAlign => "A parameter passed to this function was not correctly aligned."@,
        Error::BadAlloc => "The memory allocator did not correctly return memory suitably aligned."@,
    }
}

impl From<i32> for Error {
    fn from(code: i32) -> (r: Error)
        ensures
            r == error_of_code(code),
    {
        if code == HS_SUCCESS {
            Error::Success
        } else if code == HS_INVALID {
            Error::Invalid
        } else if code == HS_NOMEM {
            Error::NoMem
        } else if code == HS_SCAN_TERMINATED {
            Error::ScanTerminated
        } else if code == HS_DB_VERSION_ERROR {
            Error::DbVersionError
        } else if code == HS_DB_PLATFORM_ERROR {
            Error::DbPlatformError
        } else if code == HS_DB_MODE_ERROR {
            Error::DbModeError
        } else if code == HS_BAD_ALIGN {
            Error::BadAlign
        } else if code == HS_BAD_ALLOC {
            Error::BadAlloc
        } else {
            Error::Failed(code)
        }
    }
}

impl vstd::std_specs::convert::FromSpecImpl<i32> for Error {
    open spec fn obeys_from_spec() -> bool {
        true
    }

    open spec fn from_spec(code: i32) -> Error {
        error_of_code(code)
    }
}

impl Error {
    /// Returns the text that describes the error.
    pub fn description(&self) -> (r: &'static str)
        ensures
            r@ == error_text(self),
    {
        match self {
            Error::Success => "The engine completed normally.",
            Error::Failed(_) => "Failed.",
            Error::Invalid => "A parameter passed to this function was invalid.",
            Error::NoMem => "A memory allocation failed.",
            Error::ScanTerminated => "The engine was terminated by callback.",
            Error::CompilerError(_) => "The pattern compiler failed.",
            Error::DbVersionError => "The given database was built for a different version of Hyperscan.",
            Error::DbPlatformError => "The given database was built for a different platform.",
            Error::DbModeError => "The given database was built for a different mode of operation.",
            Error::BadAlign => "A parameter passed to this function was not correctly aligned.",
            Error::BadAlloc => "The memory allocator did not correctly return memory suitably aligned.",
        }
    }

}

} // verus!
