//! A verified core for a multipart file-upload endpoint.
//!
//! The library models the upload handler as a state machine over plain
//! values: the surrounding server performs the actual HTTP and file I/O
//! and feeds each outcome back as an event.
pub mod filename;
pub mod machine;
pub mod model;

use vstd::prelude::*;

verus! {

/// Largest request body the endpoint accepts, in bytes.
pub const MAX_BODY_BYTES: usize = 10 * 1024 * 1024;

/// Whether a request body of `len` bytes is within the accepted limit.
pub fn body_within_limit(len: usize) -> (r: bool)
    ensures
        r == (len <= MAX_BODY_BYTES),
{
    len <= MAX_BODY_BYTES
}

/// The fixed directory every accepted file is stored under, relative to
/// the working directory of the process.
pub fn upload_dir() -> (d: &'static str)
    ensures
        d@ == "./uploads"@,
{
    "./uploads"
}

} // verus!
