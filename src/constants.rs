//! The numeric vocabulary of the matching engine: compile flags, database
//! modes and the status codes that its calls return.
use vstd::prelude::*;

verus! {

/// Matching is case-insensitive.
pub const HS_FLAG_CASELESS: u32 = 1;

/// `.` also matches a newline.
pub const HS_FLAG_DOTALL: u32 = 2;

/// `^` and `$` also match at line boundaries.
pub const HS_FLAG_MULTILINE: u32 = 4;

/// Report at most one match per scan.
pub const HS_FLAG_SINGLEMATCH: u32 = 8;

/// Allow patterns that can match the empty string.
pub const HS_FLAG_ALLOWEMPTY: u32 = 16;

/// Treat the pattern and the scanned data as UTF-8.
pub const HS_FLAG_UTF8: u32 = 32;

/// Use Unicode properties for character classes.
pub const HS_FLAG_UCP: u32 = 64;

/// Compile in prefiltering mode.
pub const HS_FLAG_PREFILTER: u32 = 128;

/// Report the leftmost start offset of each match.
pub const HS_FLAG_SOM_LEFTMOST: u32 = 256;

/// Block (non-streaming) database mode.
pub const HS_MODE_BLOCK: u32 = 1;

/// Streaming database mode.
pub const HS_MODE_STREAM: u32 = 2;

/// Vectored database mode.
pub const HS_MODE_VECTORED: u32 = 4;

/// The engine completed normally.
pub const HS_SUCCESS: i32 = 0;

/// A parameter was invalid.
pub const HS_INVALID: i32 = -1;

/// A memory allocation failed.
pub const HS_NOMEM: i32 = -2;

/// The scan was terminated by the match callback.
pub const HS_SCAN_TERMINATED: i32 = -3;

/// The pattern compiler failed.
pub const HS_COMPILER_ERROR: i32 = -4;

/// The database was built for another version of the engine.
pub const HS_DB_VERSION_ERROR: i32 = -5;

/// The database was built for another platform.
pub const HS_DB_PLATFORM_ERROR: i32 = -6;

/// The database was built for another mode of operation.
pub const HS_DB_MODE_ERROR: i32 = -7;

/// A parameter was not correctly aligned.
pub const HS_BAD_ALIGN: i32 = -8;

/// The memory allocator returned memory that was not correctly aligned.
pub const HS_BAD_ALLOC: i32 = -9;

} // verus!
