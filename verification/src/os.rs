//! The two OS-facing calls behind a raise, each in a narrow boundary
//! function: the resource-limit query and the resource-limit install, both
//! for the open-file-descriptor resource class. A failed call's `io::Error`
//! is reported as its raw OS error code, `None` where it carries none.

use vstd::prelude::*;

verus! {

/// Relies on rlimit::getrlimit with rlimit::Resource::NOFILE: on success the
/// OS reports the process's current (soft, hard) open-file limit pair; on
/// failure the raw OS error code is handed on.
#[verifier::external_body]
pub(crate) fn get_nofile_limits() -> (r: Result<(u64, u64), Option<i32>>) {
    match rlimit::getrlimit(rlimit::Resource::NOFILE) {
        Ok(pair) => Ok(pair),
        Err(e) => Err(e.raw_os_error()),
    }
}

/// Relies on rlimit::setrlimit with rlimit::Resource::NOFILE: installs the
/// given (soft, hard) pair as the process's open-file limits; on failure the
/// raw OS error code is handed on.
#[verifier::external_body]
pub(crate) fn set_nofile_limits(soft: u64, hard: u64) -> (r: Result<(), Option<i32>>) {
    match rlimit::setrlimit(rlimit::Resource::NOFILE, soft, hard) {
        Ok(()) => Ok(()),
        Err(e) => Err(e.raw_os_error()),
    }
}

} // verus!
